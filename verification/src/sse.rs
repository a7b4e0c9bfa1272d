//! Server-Sent Events parsing.
//!
//! A byte stream is cut into events at the first blank line (`\r\n\r\n`,
//! `\n\n` or `\r\r`); each complete event is decoded as UTF-8 and read field
//! by field.  Bytes after the last complete event stay buffered until more
//! arrive.
use vstd::prelude::*;
use vstd::utf8::*;
use vstd::string::StringSliceAdditionalSpecFns;
use crate::text::{chars_eq, chars_of, push_all, string_from_chars, sub_chars, trim_end, trim_end_len, trim_start_char};

verus! {

broadcast use vstd::utf8::group_utf8_lib;

/// A parsed SSE event.
#[derive(Debug, Clone, PartialEq)]
pub enum SseEvent {
    /// A complete SSE message (event + data)
    Message { event: Option<String>, data: String },
    /// Stream done (`[DONE]` marker)
    Done,
    /// Parse error
    Error(String),
}

/// The mathematical content of an [`SseEvent`].
pub enum SseEventView {
    Message { event: Option<Seq<char>>, data: Seq<char> },
    Done,
    Error(Seq<char>),
}

impl View for SseEvent {
    type V = SseEventView;

    open spec fn view(&self) -> SseEventView {
        match self {
            SseEvent::Message { event, data } => SseEventView::Message {
                event: match event {
                    Some(e) => Some(e@),
                    None => None,
                },
                data: data@,
            },
            SseEvent::Done => SseEventView::Done,
            SseEvent::Error(m) => SseEventView::Error(m@),
        }
    }
}

/// The views of a sequence of events.
pub open spec fn views_of(evs: Seq<SseEvent>) -> Seq<SseEventView> {
    evs.map_values(|e: SseEvent| e@)
}

// ---------------------------------------------------------------------------
// Event boundaries
// ---------------------------------------------------------------------------

/// `needle` occurs in `hay` starting at index `i`.
pub open spec fn occurs_at(hay: Seq<u8>, needle: Seq<u8>, i: int) -> bool {
    &&& 0 <= i
    &&& i + needle.len() <= hay.len()
    &&& forall|k: int| 0 <= k < needle.len() ==> #[trigger] hay[i + k] == needle[k]
}

/// `\r\n\r\n` starts at `i`.
pub open spec fn crlf_crlf_at(b: Seq<u8>, i: int) -> bool {
    0 <= i && i + 4 <= b.len() && b[i] == 13 && b[i + 1] == 10 && b[i + 2] == 13 && b[i + 3] == 10
}

/// `\n\n` starts at `i`.
pub open spec fn lf_lf_at(b: Seq<u8>, i: int) -> bool {
    0 <= i && i + 2 <= b.len() && b[i] == 10 && b[i + 1] == 10
}

/// `\r\r` starts at `i`.
pub open spec fn cr_cr_at(b: Seq<u8>, i: int) -> bool {
    0 <= i && i + 2 <= b.len() && b[i] == 13 && b[i + 1] == 13
}

/// The length of the event separator starting at `i`, or 0 if none does.
pub open spec fn sep_len_at(b: Seq<u8>, i: int) -> int {
    if crlf_crlf_at(b, i) {
        4
    } else if lf_lf_at(b, i) || cr_cr_at(b, i) {
        2
    } else {
        0
    }
}

/// An event separator starts at `i`.
pub open spec fn is_boundary(b: Seq<u8>, i: int) -> bool {
    sep_len_at(b, i) > 0
}

/// `i` is where the first event separator of `b` starts.
pub open spec fn is_first_boundary(b: Seq<u8>, i: int) -> bool {
    &&& is_boundary(b, i)
    &&& forall|j: int| 0 <= j < i ==> !is_boundary(b, j)
}

/// `b` holds no complete event.
pub open spec fn no_boundary(b: Seq<u8>) -> bool {
    forall|j: int| !is_boundary(b, j)
}

/// The first event separator of `b` at or after `k`.
pub open spec fn scan_boundary(b: Seq<u8>, k: int) -> Option<int>
    decreases b.len() - k,
{
    if k < 0 || k >= b.len() {
        None
    } else if is_boundary(b, k) {
        Some(k)
    } else {
        scan_boundary(b, k + 1)
    }
}

/// The first event separator of `b`.
pub open spec fn first_boundary(b: Seq<u8>) -> Option<int> {
    scan_boundary(b, 0)
}

proof fn lemma_scan_boundary(b: Seq<u8>, k: int)
    requires
        0 <= k,
    ensures
        match scan_boundary(b, k) {
            Some(i) => k <= i && is_boundary(b, i) && forall|j: int|
                k <= j < i ==> !is_boundary(b, j),
            None => forall|j: int| k <= j ==> !is_boundary(b, j),
        },
    decreases b.len() - k,
{
    if k < b.len() && !is_boundary(b, k) {
        lemma_scan_boundary(b, k + 1);
    }
}

/// `first_boundary` finds the first separator, and only that.
pub proof fn lemma_first_boundary(b: Seq<u8>)
    ensures
        match first_boundary(b) {
            Some(i) => is_first_boundary(b, i) && i + sep_len_at(b, i) <= b.len(),
            None => no_boundary(b),
        },
{
    lemma_scan_boundary(b, 0);
    match first_boundary(b) {
        Some(i) => {},
        None => {
            assert forall|j: int| !is_boundary(b, j) by {
                if j < 0 {
                }
            }
        },
    }
}

/// Only one first boundary exists.
pub proof fn lemma_first_boundary_unique(b: Seq<u8>, i: int)
    requires
        is_first_boundary(b, i),
    ensures
        first_boundary(b) == Some(i),
{
    lemma_first_boundary(b);
    match first_boundary(b) {
        Some(k) => {
            if k < i {
                assert(!is_boundary(b, k));
            } else if i < k {
            }
        },
        None => {
            assert(!is_boundary(b, i));
        },
    }
}

// ---------------------------------------------------------------------------
// Lines and fields of one event
// ---------------------------------------------------------------------------

/// `s` without one trailing `\r`, if it has one.
pub open spec fn strip_cr(s: Seq<char>) -> Seq<char> {
    if s.len() > 0 && s.last() == '\r' {
        s.drop_last()
    } else {
        s
    }
}

/// The lines finished so far in `s`, and the line still open, as
/// `str::lines` reads them: a line ends at `\n`, and a `\r` just before
/// that `\n` belongs to the line ending.
pub open spec fn scan_lines(s: Seq<char>) -> (Seq<Seq<char>>, Seq<char>)
    decreases s.len(),
{
    if s.len() == 0 {
        (Seq::empty(), Seq::empty())
    } else {
        let (done, cur) = scan_lines(s.drop_last());
        if s.last() == '\n' {
            (done.push(strip_cr(cur)), Seq::empty())
        } else {
            (done, cur.push(s.last()))
        }
    }
}

/// The lines of `s`, as `str::lines` yields them: the final line ending is
/// optional, and an empty text has no lines.
pub open spec fn lines(s: Seq<char>) -> Seq<Seq<char>> {
    let (done, cur) = scan_lines(s);
    if cur.len() == 0 {
        done
    } else {
        done.push(cur)
    }
}

/// The index of the first occurrence of `c` in `s`.
pub open spec fn index_of(s: Seq<char>, c: char) -> Option<int>
    decreases s.len(),
{
    if s.len() == 0 {
        None
    } else if s.first() == c {
        Some(0)
    } else {
        match index_of(s.drop_first(), c) {
            Some(i) => Some(i + 1),
            None => None,
        }
    }
}

/// A line split into its field name and its value: the name is everything
/// before the first `:`, the value everything after it less its leading
/// spaces; a line without `:` is a name with an empty value.
pub open spec fn split_field(line: Seq<char>) -> (Seq<char>, Seq<char>) {
    match index_of(line, ':') {
        Some(k) => (line.take(k), trim_start_char(line.skip(k + 1), ' ')),
        None => (line, Seq::empty()),
    }
}

/// The field name `event`.
pub open spec fn event_name() -> Seq<char> {
    seq!['e', 'v', 'e', 'n', 't']
}

/// The field name `data`.
pub open spec fn data_name() -> Seq<char> {
    seq!['d', 'a', 't', 'a']
}

/// The data that ends a stream.
pub open spec fn done_marker() -> Seq<char> {
    seq!['[', 'D', 'O', 'N', 'E', ']']
}

/// The message of the error event for bytes that are not UTF-8.
pub open spec fn invalid_utf8_message() -> Seq<char> {
    seq!['I', 'n', 'v', 'a', 'l', 'i', 'd', ' ', 'U', 'T', 'F', '-', '8']
}

/// The event type and data after reading one more line: comments (lines
/// that start with `:`) and unknown fields change nothing, `event` sets the
/// type, and each `data` line appends its value and a newline.
pub open spec fn apply_line(
    line: Seq<char>,
    acc: (Option<Seq<char>>, Seq<char>),
) -> (Option<Seq<char>>, Seq<char>) {
    let l = strip_cr(line);
    if l.len() > 0 && l[0] == ':' {
        acc
    } else {
        let (field, value) = split_field(l);
        if field == event_name() {
            (Some(value), acc.1)
        } else if field == data_name() {
            (acc.0, acc.1 + value.push('\n'))
        } else {
            acc
        }
    }
}

/// The event type and data after reading the given lines in order.
pub open spec fn read_fields(ls: Seq<Seq<char>>) -> (Option<Seq<char>>, Seq<char>)
    decreases ls.len(),
{
    if ls.len() == 0 {
        (None, Seq::empty())
    } else {
        apply_line(ls.last(), read_fields(ls.drop_last()))
    }
}

/// The event that one complete event's text denotes: none when it has
/// neither data nor an event type, `Done` when its data, less trailing
/// white space, is `[DONE]`, and a message otherwise.
pub open spec fn event_from_text(text: Seq<char>) -> Option<SseEventView> {
    let (event, data) = read_fields(lines(text));
    if data.len() == 0 && event is None {
        None
    } else if trim_end(data) == done_marker() {
        Some(SseEventView::Done)
    } else {
        Some(SseEventView::Message { event, data })
    }
}

/// The event that one complete event's bytes denote.
pub open spec fn event_from_bytes(bytes: Seq<u8>) -> Option<SseEventView> {
    if valid_utf8(bytes) {
        event_from_text(decode_utf8(bytes))
    } else {
        Some(SseEventView::Error(invalid_utf8_message()))
    }
}

/// The events of all complete events in `b`, in order, and the bytes after
/// the last complete event.
pub open spec fn split_events(b: Seq<u8>) -> (Seq<SseEventView>, Seq<u8>)
    decreases b.len(),
{
    match first_boundary(b) {
        None => (Seq::empty(), b),
        Some(i) => {
            proof {
                lemma_first_boundary(b);
            }
            let rest = b.subrange(i + sep_len_at(b, i), b.len() as int);
            let (evs, tail) = split_events(rest);
            match event_from_bytes(b.take(i)) {
                Some(e) => (seq![e] + evs, tail),
                None => (evs, tail),
            }
        },
    }
}

// ---------------------------------------------------------------------------
// Laws
// ---------------------------------------------------------------------------

/// Appending bytes never moves or changes the first event separator of a
/// buffer that already has one.
pub proof fn lemma_first_boundary_append(x: Seq<u8>, y: Seq<u8>)
    requires
        first_boundary(x) is Some,
    ensures
        first_boundary(x + y) == first_boundary(x),
        sep_len_at(x + y, first_boundary(x)->0) == sep_len_at(x, first_boundary(x)->0),
{
    lemma_first_boundary(x);
    let i = first_boundary(x)->0;
    let xy = x + y;
    let l = sep_len_at(x, i);
    assert(forall|k: int| 0 <= k < x.len() ==> xy[k] == x[k]);
    assert(sep_len_at(xy, i) == l);
    assert forall|j: int| 0 <= j < i implies !is_boundary(xy, j) by {
        assert(!is_boundary(x, j));
        if j + 4 <= x.len() {
        } else if j + 2 <= x.len() {
        } else {
        }
    }
    lemma_first_boundary_unique(xy, i);
}

/// Reading a buffer in two pieces gives the same events as reading it at
/// once: the events of `x + y` are the events of `x` followed by the events
/// of what `x` left over with `y` appended, and the leftover bytes agree.
pub proof fn lemma_split_events_append(x: Seq<u8>, y: Seq<u8>)
    ensures
        split_events(x + y).0 == split_events(x).0 + split_events(split_events(x).1 + y).0,
        split_events(x + y).1 == split_events(split_events(x).1 + y).1,
    decreases x.len(),
{
    lemma_first_boundary(x);
    match first_boundary(x) {
        None => {
            assert(split_events(x).0 =~= Seq::<SseEventView>::empty());
            assert(split_events(x).1 == x);
            assert(split_events(x).0 + split_events(x + y).0 =~= split_events(x + y).0);
        },
        Some(i) => {
            lemma_first_boundary_append(x, y);
            let l = sep_len_at(x, i);
            let xy = x + y;
            let rest_x = x.subrange(i + l, x.len() as int);
            let rest_xy = xy.subrange(i + l, xy.len() as int);
            assert(rest_xy =~= rest_x + y);
            assert(xy.take(i) =~= x.take(i));
            lemma_split_events_append(rest_x, y);
            assert(split_events(rest_x).1 == split_events(x).1);
            match event_from_bytes(x.take(i)) {
                Some(e) => {
                    assert(split_events(xy).0 =~= seq![e] + split_events(rest_xy).0);
                    assert(split_events(x).0 =~= seq![e] + split_events(rest_x).0);
                    assert(split_events(xy).0 =~= split_events(x).0 + split_events(
                        split_events(x).1 + y,
                    ).0);
                },
                None => {},
            }
        },
    }
}

/// Feeding a chunk to the parser in two pieces gives the same events, in
/// the same order, and leaves the same pending bytes, as feeding it at once.
pub proof fn lemma_parse_in_pieces(pending: Seq<u8>, a: Seq<u8>, b: Seq<u8>)
    ensures
        split_events(pending + (a + b)).0 == split_events(pending + a).0 + split_events(
            split_events(pending + a).1 + b,
        ).0,
        split_events(pending + (a + b)).1 == split_events(split_events(pending + a).1 + b).1,
{
    assert(pending + (a + b) =~= (pending + a) + b);
    lemma_split_events_append(pending + a, b);
}

/// After reading, the buffer never holds a complete event.
pub proof fn lemma_split_events_leftover(b: Seq<u8>)
    ensures
        no_boundary(split_events(b).1),
    decreases b.len(),
{
    lemma_first_boundary(b);
    match first_boundary(b) {
        None => {},
        Some(i) => {
            let rest = b.subrange(i + sep_len_at(b, i), b.len() as int);
            lemma_split_events_leftover(rest);
        },
    }
}

// ---------------------------------------------------------------------------
// Executable parser
// ---------------------------------------------------------------------------

/// SSE parser that converts a byte stream into SSE events.
pub struct SseParser {
    buffer: Vec<u8>,
}

impl SseParser {
    /// The bytes received but not yet part of a complete event.
    pub closed spec fn pending(&self) -> Seq<u8> {
        self.buffer@
    }

    /// An empty parser.
    pub fn new() -> (p: Self)
        ensures
            p.pending() == Seq::<u8>::empty(),
    {
        SseParser { buffer: Vec::new() }
    }

    /// Parses raw bytes: appends them to the pending bytes and returns the
    /// events of every event that is now complete, in order.  What follows
    /// the last complete event stays pending.
    pub fn parse_bytes(&mut self, chunk: &[u8]) -> (events: Vec<SseEvent>)
        ensures
            views_of(events@) == split_events(old(self).pending() + chunk@).0,
            final(self).pending() == split_events(old(self).pending() + chunk@).1,
            no_boundary(final(self).pending()),
    {
        let mut i: usize = 0;
        let ghost start = self.buffer@;
        while i < chunk.len()
            invariant
                i <= chunk@.len(),
                self.buffer@ == start + chunk@.take(i as int),
            decreases chunk@.len() - i,
        {
            self.buffer.push(chunk[i]);
            assert(chunk@.take(i + 1) =~= chunk@.take(i as int).push(chunk@[i as int]));
            i = i + 1;
        }
        assert(chunk@.take(chunk@.len() as int) =~= chunk@);
        proof {
            lemma_split_events_leftover(start + chunk@);
        }
        self.flush_buffer()
    }

    /// Extracts the events of all complete events from the buffer.
    fn flush_buffer(&mut self) -> (events: Vec<SseEvent>)
        ensures
            views_of(events@) == split_events(old(self).buffer@).0,
            final(self).buffer@ == split_events(old(self).buffer@).1,
    {
        let mut events: Vec<SseEvent> = Vec::new();
        let ghost all = self.buffer@;
        loop
            invariant
                all == old(self).buffer@,
                split_events(all).0 == views_of(events@) + split_events(
                    self.buffer@,
                ).0,
                split_events(all).1 == split_events(self.buffer@).1,
            decreases self.buffer@.len(),
        {
            let ghost before = self.buffer@;
            let ghost before_events = events@;
            match Self::split_complete_event(self.buffer.as_slice()) {
                None => {
                    proof {
                        lemma_first_boundary_unique_none(before);
                    }
                    assert(split_events(before).0 =~= Seq::<SseEventView>::empty());
                    assert(split_events(before).1 == before);
                    assert(views_of(events@) + Seq::<SseEventView>::empty()
                        =~= views_of(events@));
                    return events;
                },
                Some((event_end, rest_start)) => {
                    proof {
                        lemma_first_boundary_unique(before, event_end as int);
                        lemma_first_boundary(before);
                    }
                    let mut rest = self.buffer.split_off(event_end);
                    let remaining = rest.split_off(rest_start - event_end);
                    let mut event_bytes = remaining;
                    std::mem::swap(&mut self.buffer, &mut event_bytes);
                    assert(event_bytes@ == before.take(event_end as int));
                    assert(self.buffer@ =~= before.subrange(
                        rest_start as int,
                        before.len() as int,
                    ));
                    let parsed = Self::parse_event_bytes(event_bytes.as_slice());
                    match parsed {
                        Some(e) => {
                            events.push(e);
                            assert(views_of(events@) =~= views_of(before_events).push(e@));
                        },
                        None => {},
                    }
                },
            }
        }
    }

    /// Finds the first complete event: the index where its text ends and
    /// the index where the bytes after its separator begin.
    fn split_complete_event(buffer: &[u8]) -> (r: Option<(usize, usize)>)
        ensures
            match r {
                Some((e, s)) => is_first_boundary(buffer@, e as int) && s == e + sep_len_at(
                    buffer@,
                    e as int,
                ) && s <= buffer@.len(),
                None => no_boundary(buffer@),
            },
    {
        let crlf: Vec<u8> = vec![13u8, 10u8, 13u8, 10u8];
        let lf: Vec<u8> = vec![10u8, 10u8];
        let cr: Vec<u8> = vec![13u8, 13u8];
        let a = find_bytes(buffer, crlf.as_slice());
        let b = find_bytes(buffer, lf.as_slice());
        let c = find_bytes(buffer, cr.as_slice());
        assert(crlf@ =~= seq![13u8, 10u8, 13u8, 10u8]);
        assert(lf@ =~= seq![10u8, 10u8]);
        assert(cr@ =~= seq![13u8, 13u8]);
        proof {
            lemma_separator_occurrences(buffer@);
        }
        assert(forall|j: int| (a matches Some(x) && 0 <= j < x) ==> !crlf_crlf_at(buffer@, j));
        assert(forall|j: int| a is None ==> !crlf_crlf_at(buffer@, j));
        assert(forall|j: int| (b matches Some(x) && 0 <= j < x) ==> !lf_lf_at(buffer@, j));
        assert(forall|j: int| b is None ==> !lf_lf_at(buffer@, j));
        assert(forall|j: int| (c matches Some(x) && 0 <= j < x) ==> !cr_cr_at(buffer@, j));
        assert(forall|j: int| c is None ==> !cr_cr_at(buffer@, j));
        assert(a matches Some(x) ==> crlf_crlf_at(buffer@, x as int));
        assert(b matches Some(x) ==> lf_lf_at(buffer@, x as int));
        assert(c matches Some(x) ==> cr_cr_at(buffer@, x as int));
        // The separators never start at the same index, so the earliest
        // occurrence among the three is the first boundary.
        let (i, n) = match (a, b, c) {
            (None, None, None) => {
                assert forall|j: int| !is_boundary(buffer@, j) by {}
                return None;
            },
            (Some(i), None, None) => (i, 4usize),
            (None, Some(i), None) => (i, 2usize),
            (None, None, Some(i)) => (i, 2usize),
            (Some(x), Some(y), None) => if x < y { (x, 4usize) } else { (y, 2usize) },
            (Some(x), None, Some(z)) => if x < z { (x, 4usize) } else { (z, 2usize) },
            (None, Some(y), Some(z)) => if y < z { (y, 2usize) } else { (z, 2usize) },
            (Some(x), Some(y), Some(z)) => if x < y && x < z { (x, 4usize) } else if y < z { (y, 2usize) } else { (z, 2usize) },
        };
        let bl = buffer.len();
        assert(is_boundary(buffer@, i as int));
        assert(i + n <= bl);
        assert(sep_len_at(buffer@, i as int) == n);
        assert forall|j: int| 0 <= j < i implies !is_boundary(buffer@, j) by {}
        Some((i, i + n))
    }

    /// The event of one complete event's bytes.
    fn parse_event_bytes(bytes: &[u8]) -> (r: Option<SseEvent>)
        ensures
            match r {
                Some(e) => event_from_bytes(bytes@) == Some(e@),
                None => event_from_bytes(bytes@) is None,
            },
    {
        match utf8_text(bytes) {
            Some(text) => {
                let chars = chars_of(text);
                Self::parse_event(chars.as_slice())
            },
            None => {
                let msg = chars_of("Invalid UTF-8");
                proof {
                    reveal_strlit("Invalid UTF-8");
                }
                assert(msg@ =~= invalid_utf8_message());
                Some(SseEvent::Error(string_from_chars(msg.as_slice())))
            },
        }
    }

    /// The event of one complete event's text.
    fn parse_event(event_text: &[char]) -> (r: Option<SseEvent>)
        ensures
            match r {
                Some(e) => event_from_text(event_text@) == Some(e@),
                None => event_from_text(event_text@) is None,
            },
    {
        let ls = split_lines(event_text);
        let mut current_event: Option<Vec<char>> = None;
        let mut current_data: Vec<char> = Vec::new();
        let ghost views = lines(event_text@);
        let mut i: usize = 0;
        while i < ls.len()
            invariant
                i <= ls@.len() == views.len(),
                views == lines(event_text@),
                forall|k: int| 0 <= k < ls@.len() ==> #[trigger] ls@[k]@ == views[k],
                read_fields(views.take(i as int)) == (
                    match current_event {
                        Some(e) => Some(e@),
                        None => None,
                    },
                    current_data@,
                ),
            decreases ls@.len() - i,
        {
            let ghost prev_event = current_event;
            let line = strip_cr_exec(ls[i].as_slice());
            assert(views.take(i + 1).drop_last() =~= views.take(i as int));
            assert(views.take(i + 1).last() == views[i as int]);
            if line.len() > 0 && line[0] == ':' {
            } else {
                let (field, value) = split_field_exec(line.as_slice());
                let event_word = chars_of("event");
                let data_word = chars_of("data");
                proof {
                    reveal_strlit("event");
                    reveal_strlit("data");
                }
                assert(event_word@ =~= event_name());
                assert(data_word@ =~= data_name());
                if chars_eq(field.as_slice(), event_word.as_slice()) {
                    current_event = Some(value);
                } else if chars_eq(field.as_slice(), data_word.as_slice()) {
                    push_all(&mut current_data, value.as_slice());
                    current_data.push('\n');
                }
            }
            i = i + 1;
        }
        assert(views.take(views.len() as int) =~= views);
        if current_data.len() == 0 && current_event.is_none() {
            return None;
        }
        let n = trim_end_len(current_data.as_slice());
        let trimmed = sub_chars(current_data.as_slice(), 0, n);
        let done = chars_of("[DONE]");
        proof {
            reveal_strlit("[DONE]");
        }
        assert(done@ =~= done_marker());
        if chars_eq(trimmed.as_slice(), done.as_slice()) {
            Some(SseEvent::Done)
        } else {
            let event = match current_event {
                Some(e) => Some(string_from_chars(e.as_slice())),
                None => None,
            };
            Some(SseEvent::Message { event, data: string_from_chars(current_data.as_slice()) })
        }
    }
}

/// The events up to and including the first `Done`, and whether a `Done`
/// was among them: a stream ends at its `Done` event.
pub fn take_until_done(events: Vec<SseEvent>) -> (r: (Vec<SseEvent>, bool))
    ensures
        r.1 == exists|k: int| 0 <= k < events@.len() && events@[k] is Done,
        r.1 ==> {
            &&& r.0@.len() > 0
            &&& r.0@ == events@.take(r.0@.len() as int)
            &&& r.0@.last() is Done
            &&& forall|k: int| 0 <= k < r.0@.len() - 1 ==> !(events@[k] is Done)
        },
        !r.1 ==> r.0@ == events@,
{
    let mut out: Vec<SseEvent> = Vec::new();
    let ghost all = events@;
    let mut rest = events;
    let mut i: usize = 0;
    let n = rest.len();
    // Consume from the front by reversing once, then popping.
    let mut rev: Vec<SseEvent> = Vec::new();
    while rest.len() > 0
        invariant
            all == events@,
            rev@.len() + rest@.len() == all.len(),
            rest@ == all.take(rest@.len() as int),
            forall|k: int| 0 <= k < rev@.len() ==> #[trigger] rev@[k] == all[all.len() - 1 - k],
        decreases rest@.len(),
    {
        let e = rest.pop().unwrap();
        rev.push(e);
    }
    while i < n
        invariant
            n == all.len(),
            all == events@,
            i <= n,
            rev@.len() == n - i,
            forall|k: int| 0 <= k < rev@.len() ==> #[trigger] rev@[k] == all[n - 1 - k],
            out@ == all.take(i as int),
            forall|k: int| 0 <= k < i ==> !(all[k] is Done),
        decreases n - i,
    {
        let e = rev.pop().unwrap();
        assert(e == all[i as int]);
        let is_done = match e {
            SseEvent::Done => true,
            _ => false,
        };
        out.push(e);
        assert(out@ =~= all.take(i + 1));
        if is_done {
            assert(all[i as int] is Done);
            assert(out@.last() == all[i as int]);
            return (out, true);
        }
        i = i + 1;
    }
    assert(out@ =~= all);
    (out, false)
}

impl Default for SseParser {
    fn default() -> (p: Self)
        ensures
            p.pending() == Seq::<u8>::empty(),
    {
        Self::new()
    }
}

proof fn lemma_first_boundary_unique_none(b: Seq<u8>)
    requires
        no_boundary(b),
    ensures
        first_boundary(b) is None,
{
    lemma_first_boundary(b);
}

/// Where each separator can first occur, and that no two of them start at
/// the same index.
proof fn lemma_separator_occurrences(b: Seq<u8>)
    ensures
        forall|i: int| occurs_at(b, seq![13u8, 10u8, 13u8, 10u8], i) <==> crlf_crlf_at(b, i),
        forall|i: int| occurs_at(b, seq![10u8, 10u8], i) <==> lf_lf_at(b, i),
        forall|i: int| occurs_at(b, seq![13u8, 13u8], i) <==> cr_cr_at(b, i),
{
    assert forall|i: int| occurs_at(b, seq![13u8, 10u8, 13u8, 10u8], i) <==> crlf_crlf_at(
        b,
        i,
    ) by {
        let n = seq![13u8, 10u8, 13u8, 10u8];
        if occurs_at(b, n, i) {
            assert(b[i + 0] == n[0]);
            assert(b[i + 1] == n[1]);
            assert(b[i + 2] == n[2]);
            assert(b[i + 3] == n[3]);
        }
        if crlf_crlf_at(b, i) {
            assert forall|k: int| 0 <= k < n.len() implies #[trigger] b[i + k] == n[k] by {
                if k == 0 {
                } else if k == 1 {
                } else if k == 2 {
                } else {
                }
            }
        }
    }
    assert forall|i: int| occurs_at(b, seq![10u8, 10u8], i) <==> lf_lf_at(b, i) by {
        let n = seq![10u8, 10u8];
        if occurs_at(b, n, i) {
            assert(b[i + 0] == n[0]);
            assert(b[i + 1] == n[1]);
        }
        if lf_lf_at(b, i) {
            assert forall|k: int| 0 <= k < n.len() implies #[trigger] b[i + k] == n[k] by {
                if k == 0 {
                } else {
                }
            }
        }
    }
    assert forall|i: int| occurs_at(b, seq![13u8, 13u8], i) <==> cr_cr_at(b, i) by {
        let n = seq![13u8, 13u8];
        if occurs_at(b, n, i) {
            assert(b[i + 0] == n[0]);
            assert(b[i + 1] == n[1]);
        }
        if cr_cr_at(b, i) {
            assert forall|k: int| 0 <= k < n.len() implies #[trigger] b[i + k] == n[k] by {
                if k == 0 {
                } else {
                }
            }
        }
    }
}

/// The index of the first occurrence of `needle` in `haystack`.
pub fn find_bytes(haystack: &[u8], needle: &[u8]) -> (r: Option<usize>)
    requires
        needle@.len() > 0,
    ensures
        match r {
            Some(i) => occurs_at(haystack@, needle@, i as int) && forall|j: int|
                0 <= j < i ==> !occurs_at(haystack@, needle@, j),
            None => forall|j: int| !occurs_at(haystack@, needle@, j),
        },
{
    let n = needle.len();
    let hl = haystack.len();
    if n > hl {
        return None;
    }
    let mut i: usize = 0;
    let last = hl - n;
    while i <= last
        invariant
            last == haystack@.len() - n,
            hl == haystack@.len(),
            n == needle@.len() > 0,
            n <= haystack@.len(),
            i <= last + 1,
            forall|j: int| 0 <= j < i ==> !occurs_at(haystack@, needle@, j),
        decreases haystack@.len() - i,
    {
        let mut k: usize = 0;
        let mut same = true;
        while k < n
            invariant
                n == needle@.len(),
                hl == haystack@.len(),
                i <= last,
                last == hl - n,
                k <= n,
                same == forall|m: int| 0 <= m < k ==> haystack@[i + m] == needle@[m],
            decreases n - k,
        {
            if haystack[i + k] != needle[k] {
                same = false;
            }
            k = k + 1;
        }
        if same {
            return Some(i);
        }
        i = i + 1;
    }
    None
}

/// The text that `bytes` encode in UTF-8, or `None` if they are not UTF-8.
///
/// Trusted: `std::str::from_utf8` returns `Ok` exactly when its argument is
/// valid UTF-8, and the resulting slice has exactly those bytes.
#[verifier::external_body]
pub(crate) fn utf8_text(bytes: &[u8]) -> (r: Option<&str>)
    ensures
        r is Some <==> valid_utf8(bytes@),
        r matches Some(s) ==> s.spec_bytes() == bytes@,
{
    std::str::from_utf8(bytes).ok()
}

/// `s` without one trailing `\r`.
fn strip_cr_exec(s: &[char]) -> (r: Vec<char>)
    ensures
        r@ == strip_cr(s@),
{
    if s.len() > 0 && s[s.len() - 1] == '\r' {
        sub_chars(s, 0, s.len() - 1)
    } else {
        sub_chars(s, 0, s.len())
    }
}

/// The lines of `text`.
fn split_lines(text: &[char]) -> (ls: Vec<Vec<char>>)
    ensures
        ls@.len() == lines(text@).len(),
        forall|k: int| 0 <= k < ls@.len() ==> #[trigger] ls@[k]@ == lines(text@)[k],
{
    let mut done: Vec<Vec<char>> = Vec::new();
    let mut cur: Vec<char> = Vec::new();
    let mut i: usize = 0;
    while i < text.len()
        invariant
            i <= text@.len(),
            done@.len() == scan_lines(text@.take(i as int)).0.len(),
            forall|k: int|
                0 <= k < done@.len() ==> #[trigger] done@[k]@ == scan_lines(text@.take(i as int)).0[k],
            cur@ == scan_lines(text@.take(i as int)).1,
        decreases text@.len() - i,
    {
        assert(text@.take(i + 1).drop_last() =~= text@.take(i as int));
        assert(text@.take(i + 1).last() == text@[i as int]);
        if text[i] == '\n' {
            let line = strip_cr_exec(cur.as_slice());
            done.push(line);
            cur = Vec::new();
        } else {
            cur.push(text[i]);
        }
        i = i + 1;
    }
    assert(text@.take(text@.len() as int) =~= text@);
    if cur.len() > 0 {
        done.push(cur);
    }
    done
}

/// The first index of `c` in `s`.
fn find_char(s: &[char], c: char) -> (r: Option<usize>)
    ensures
        match r {
            Some(i) => index_of(s@, c) == Some(i as int) && i < s@.len(),
            None => index_of(s@, c) is None,
        },
{
    let mut i: usize = 0;
    let sl = s.len();
    while i < sl
        invariant
            sl == s@.len(),
            i <= s@.len(),
            forall|j: int| 0 <= j < i ==> s@[j] != c,
        decreases s@.len() - i,
    {
        if s[i] == c {
            proof {
                lemma_index_of(s@, c, i as int);
            }
            return Some(i);
        }
        i = i + 1;
    }
    proof {
        lemma_index_of_none(s@, c);
    }
    None
}

proof fn lemma_index_of(s: Seq<char>, c: char, i: int)
    requires
        0 <= i < s.len(),
        s[i] == c,
        forall|j: int| 0 <= j < i ==> s[j] != c,
    ensures
        index_of(s, c) == Some(i),
    decreases i,
{
    if i > 0 {
        lemma_index_of(s.drop_first(), c, i - 1);
    }
}

proof fn lemma_index_of_none(s: Seq<char>, c: char)
    requires
        forall|j: int| 0 <= j < s.len() ==> s[j] != c,
    ensures
        index_of(s, c) is None,
    decreases s.len(),
{
    if s.len() > 0 {
        lemma_index_of_none(s.drop_first(), c);
    }
}

/// `s` without its leading run of `c`.
fn trim_start_char_exec(s: &[char], c: char) -> (r: Vec<char>)
    ensures
        r@ == trim_start_char(s@, c),
{
    let mut i: usize = 0;
    assert(s@.skip(0) =~= s@);
    while i < s.len() && s[i] == c
        invariant
            i <= s@.len(),
            trim_start_char(s@.skip(i as int), c) == trim_start_char(s@, c),
        decreases s@.len() - i,
    {
        assert(s@.skip(i as int).drop_first() =~= s@.skip(i + 1));
        i = i + 1;
    }
    proof {
        if i < s@.len() {
            assert(s@.skip(i as int).first() == s@[i as int]);
        } else {
            assert(s@.skip(i as int) =~= Seq::<char>::empty());
        }
    }
    let r = sub_chars(s, i, s.len());
    assert(r@ =~= s@.skip(i as int));
    r
}

/// A line's field name and value.
fn split_field_exec(line: &[char]) -> (r: (Vec<char>, Vec<char>))
    ensures
        (r.0@, r.1@) == split_field(line@),
{
    let ll = line.len();
    match find_char(line, ':') {
        Some(k) => {
            let field = sub_chars(line, 0, k);
            let after = sub_chars(line, k + 1, line.len());
            let value = trim_start_char_exec(after.as_slice(), ' ');
            assert(after@ =~= line@.skip(k + 1));
            assert(field@ =~= line@.take(k as int));
            (field, value)
        },
        None => {
            let field = sub_chars(line, 0, line.len());
            assert(field@ =~= line@);
            (field, Vec::new())
        },
    }
}

} // verus!

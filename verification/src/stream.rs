//! The audit of a streamed response.
//!
//! In sync mode each piece of streamed text is added to a window of the
//! last 4000 characters, and once `batch_size` pieces have accumulated
//! since the last audit that window is audited.  The pieces are held back
//! from the client until the audit of the window that holds them allows
//! them, and whatever is not yet audited when the stream ends is audited
//! then; a blocked window ends the stream with an error event instead.  In
//! async mode pieces are sent at once, the last 16000 characters are kept,
//! and they are audited in the background once the stream is done.
use vstd::prelude::*;
use crate::config::AuditMode;
use crate::error::{AuditDecision, Error, error_payload, error_payload_text};
use crate::protocol::{ChatCompletionChunk, ContentExtractor, delta_contents};
use crate::sse::SseEvent;
use crate::text::{chars_of, concat_all, push_all, string_from_chars, sub_chars};

verus! {

/// The characters kept for the sync-mode audit.
pub const SYNC_WINDOW_CHARS: usize = 4000;

/// The characters kept for the async-mode audit.
pub const ASYNC_WINDOW_CHARS: usize = 16000;

/// The last `n` characters of `s` (all of `s` when it is shorter).
pub open spec fn keep_last(s: Seq<char>, n: nat) -> Seq<char> {
    if s.len() > n {
        s.skip(s.len() - n)
    } else {
        s
    }
}

/// Keeping the last `n` characters after each append is the same as
/// keeping the last `n` characters of everything appended.
pub proof fn lemma_keep_last_append(a: Seq<char>, b: Seq<char>, n: nat)
    ensures
        keep_last(keep_last(a, n) + b, n) == keep_last(a + b, n),
{
    let ka = keep_last(a, n);
    if a.len() > n {
        let x = ka + b;
        assert(x.len() > n || x.len() == n);
        assert((a + b).len() > n);
        assert(keep_last(x, n) =~= keep_last(a + b, n));
    } else {
        assert(ka == a);
    }
}

/// The state of the audit of one streamed response.
pub struct StreamAuditor {
    mode: AuditMode,
    batch_size: usize,
    pending: usize,
    audit_buffer: Vec<char>,
    async_buffer: Vec<char>,
    held: Vec<String>,
    closing: bool,
}

/// The payload of the error event that ends a stream the audit blocked.
pub open spec fn blocked_stream_payload(d: AuditDecision) -> Seq<char> {
    error_payload_text(
        match d.blocked_reason {
            Some(r) => r@,
            None => "Streaming response blocked by audit"@,
        },
        "llm_shadow_audit_blocked"@,
    )
}

/// One frame of the answer stream to the client.
#[derive(Debug)]
pub enum StreamFrame {
    /// A `data:` frame with this text.
    Data(String),
    /// An `event: error` frame with this JSON payload.
    Error(String),
}

/// What to do after one upstream event.
#[derive(Debug)]
pub enum StreamStep {
    /// Ask the audit model about `window`; what follows depends on its
    /// answer (see [`StreamAuditor::on_audit_result`]).
    Audit { window: String },
    /// Send these frames, in order.  The stream ends after them when
    /// `finished`; `background` is text to audit in the background.
    Emit { frames: Vec<StreamFrame>, finished: bool, background: Option<String> },
}

/// The frame as whether it is an error frame, and its text.
pub open spec fn frame_view(f: StreamFrame) -> (bool, Seq<char>) {
    match f {
        StreamFrame::Data(t) => (false, t@),
        StreamFrame::Error(t) => (true, t@),
    }
}

/// `step` sends exactly the frames `frames` (as [`frame_view`] gives them),
/// ends the stream when `finished`, and audits `background` afterwards.
pub open spec fn emits(
    step: StreamStep,
    frames: Seq<(bool, Seq<char>)>,
    finished: bool,
    background: Option<Seq<char>>,
) -> bool {
    step matches StreamStep::Emit { frames: f, finished: d, background: b } && f@.map_values(
        |x: StreamFrame| frame_view(x),
    ) == frames && d == finished && match b {
        Some(t) => background == Some(t@),
        None => background is None,
    }
}

/// Data frames for the given data, in order.
pub open spec fn data_frames(ds: Seq<Seq<char>>) -> Seq<(bool, Seq<char>)> {
    ds.map_values(|d: Seq<char>| (false, d))
}

/// The text of the stream's end marker.
pub open spec fn done_text() -> Seq<char> {
    "[DONE]"@
}

/// The text an upstream chunk carries: the deltas' contents, concatenated,
/// or nothing when the chunk could not be read.
pub open spec fn chunk_text(chunk: Option<ChatCompletionChunk>) -> Seq<char> {
    match chunk {
        Some(c) => concat_all(delta_contents(c.choices@)),
        None => Seq::empty(),
    }
}

/// How taking in the text of one streamed chunk changes the audit state
/// from `before` to `after`, and the window to audit, if any.  Empty text
/// changes nothing.  In sync mode the text joins the window, which keeps
/// its last 4000 characters, and counts as one more piece; once
/// `batch_size` pieces have accumulated since the last audit, the count
/// starts again and the window is to be audited.  In async mode the text
/// joins the async window, which keeps its last 16000 characters.
pub open spec fn takes_in(before: StreamAuditor, after: StreamAuditor, text: Seq<char>, audit: Option<Seq<char>>) -> bool {
    &&& (after.spec_mode() == before.spec_mode())
    &&& (after.spec_batch_size() == before.spec_batch_size())
    &&& (text.len() == 0 ==> audit is None && after.window() == before.window()
            && after.async_window() == before.async_window()
            && after.pending_pieces() == before.pending_pieces())
    &&& (text.len() > 0 && before.spec_mode() == AuditMode::Sync ==> {
            &&& after.window() == keep_last(before.window() + text, 4000)
            &&& after.async_window() == before.async_window()
            &&& if before.pending_pieces() + 1 >= before.spec_batch_size() {
                &&& after.pending_pieces() == 0
                &&& audit == Some(after.window())
            } else {
                &&& after.pending_pieces() == before.pending_pieces() + 1
                &&& audit is None
            }
        })
    &&& (text.len() > 0 && before.spec_mode() == AuditMode::Async ==> {
            &&& after.async_window() == keep_last(before.async_window() + text, 16000)
            &&& after.window() == before.window()
            &&& after.pending_pieces() == before.pending_pieces()
            &&& audit is None
        })
}

impl StreamAuditor {
    /// The audit mode of the stream.
    pub closed spec fn spec_mode(&self) -> AuditMode {
        self.mode
    }

    /// The number of pieces accumulated before each sync-mode audit.
    pub closed spec fn spec_batch_size(&self) -> nat {
        self.batch_size as nat
    }

    /// The pieces taken in since the last sync-mode audit.
    pub closed spec fn pending_pieces(&self) -> nat {
        self.pending as nat
    }

    /// The data of the messages held back, in order, until the audit of
    /// the window that holds their text allows them (sync mode).
    pub closed spec fn held_data(&self) -> Seq<Seq<char>> {
        self.held@.map_values(|d: String| d@)
    }

    /// Whether the stream ends once the pending audit has answered.
    pub closed spec fn is_closing(&self) -> bool {
        self.closing
    }

    /// The sync-mode window.
    pub closed spec fn window(&self) -> Seq<char> {
        self.audit_buffer@
    }

    /// The text kept for the async-mode audit.
    pub closed spec fn async_window(&self) -> Seq<char> {
        self.async_buffer@
    }

    /// A new stream audit with empty windows, auditing the sync-mode window
    /// once every `batch_size` pieces (every piece when it is 0 or 1).
    pub fn new(mode: AuditMode, batch_size: usize) -> (s: Self)
        ensures
            s.spec_mode() == mode,
            s.spec_batch_size() == batch_size,
            s.pending_pieces() == 0,
            s.window() == Seq::<char>::empty(),
            s.async_window() == Seq::<char>::empty(),
            s.held_data() == Seq::<Seq<char>>::empty(),
            !s.is_closing(),
    {
        StreamAuditor {
            mode,
            batch_size,
            pending: 0,
            audit_buffer: Vec::new(),
            async_buffer: Vec::new(),
            held: Vec::new(),
            closing: false,
        }
    }

    /// Takes in the text of one streamed chunk.  Empty text changes
    /// nothing.  In sync mode the text joins the window, which keeps its
    /// last 4000 characters, and counts as one more piece; once `batch_size`
    /// pieces have accumulated since the last audit, the count starts again
    /// and the window is returned for auditing.  In async mode the text
    /// joins the async window, which keeps its last 16000 characters.
    pub fn on_content(&mut self, extracted: &str) -> (r: Option<String>)
        ensures
            takes_in(
                *old(self),
                *final(self),
                extracted@,
                match r {
                    Some(w) => Some(w@),
                    None => None,
                },
            ),
            final(self).held_data() == old(self).held_data(),
            final(self).is_closing() == old(self).is_closing(),
    {
        let text = chars_of(extracted);
        if text.len() == 0 {
            return None;
        }
        match self.mode {
            AuditMode::Sync => {
                push_all(&mut self.audit_buffer, text.as_slice());
                let n = self.audit_buffer.len();
                if n > SYNC_WINDOW_CHARS {
                    self.audit_buffer = sub_chars(self.audit_buffer.as_slice(), n - SYNC_WINDOW_CHARS, n);
                }
                if self.pending >= self.batch_size || self.batch_size - self.pending <= 1 {
                    self.pending = 0;
                    Some(string_from_chars(self.audit_buffer.as_slice()))
                } else {
                    self.pending = self.pending + 1;
                    None
                }
            },
            AuditMode::Async => {
                push_all(&mut self.async_buffer, text.as_slice());
                let n = self.async_buffer.len();
                if n > ASYNC_WINDOW_CHARS {
                    self.async_buffer = sub_chars(self.async_buffer.as_slice(), n - ASYNC_WINDOW_CHARS, n);
                }
                None
            },
        }
    }

    /// The payload of the error event to send when the audit of the window
    /// blocks it; none when the decision allows it.
    pub fn on_audit_decision(&self, decision: &AuditDecision) -> (r: Option<String>)
        ensures
            decision.allowed ==> r is None,
            !decision.allowed ==> (r matches Some(p) && p@ == blocked_stream_payload(*decision)),
    {
        if decision.allowed {
            return None;
        }
        let reason = match &decision.blocked_reason {
            Some(b) => b.clone(),
            None => "Streaming response blocked by audit".to_string(),
        };
        Some(error_payload(reason.as_str(), "llm_shadow_audit_blocked"))
    }

    /// The step for one upstream event.
    ///
    /// - A message's text (that of `chunk`, the message's data read as a
    ///   chunk) is taken in.  In async mode its data is sent on at once.  In
    ///   sync mode a message with text is held back, and so is any message
    ///   behind held ones; when the window is due for audit, the audit is
    ///   asked for, and the held data is released only by an audit that
    ///   allows it (see [`StreamAuditor::on_audit_result`]).  A message
    ///   without text, with nothing held, is sent on at once.
    /// - The end marker, in sync mode with text not yet audited or data
    ///   held, asks for the audit of the window and ends the stream after
    ///   its answer.  Otherwise it sends any held data, then `[DONE]`, and
    ///   ends, handing the async window to the background audit.
    /// - A broken stream drops the held data, sends an error event, then
    ///   `[DONE]`, and ends.
    pub fn on_event(&mut self, event: SseEvent, chunk: Option<ChatCompletionChunk>) -> (r: StreamStep)
        ensures
            final(self).spec_mode() == old(self).spec_mode(),
            final(self).spec_batch_size() == old(self).spec_batch_size(),
            old(self).spec_mode() == AuditMode::Sync && event is Message && chunk_text(chunk).len() > 0
                ==> (r is Audit || emits(r, Seq::empty(), false, None)),
            old(self).spec_mode() == AuditMode::Sync && event is Done && (old(self).pending_pieces() > 0
                || old(self).held_data().len() > 0) ==> (r matches StreamStep::Audit { window }
                && window@ == old(self).window()),
            match event {
                SseEvent::Message { event: _, data } => {
                    &&& takes_in(
                        *old(self),
                        *final(self),
                        chunk_text(chunk),
                        match r {
                            StreamStep::Audit { window } => Some(window@),
                            StreamStep::Emit { .. } => None,
                        },
                    )
                    &&& final(self).is_closing() == old(self).is_closing()
                    &&& if old(self).spec_mode() == AuditMode::Async || (chunk_text(chunk).len() == 0
                        && old(self).held_data().len() == 0) {
                        &&& final(self).held_data() == old(self).held_data()
                        &&& emits(r, seq![(false, data@)], false, None)
                    } else {
                        &&& final(self).held_data() == old(self).held_data().push(data@)
                        &&& (r is Audit || emits(r, Seq::empty(), false, None))
                    }
                },
                SseEvent::Done => if old(self).spec_mode() == AuditMode::Sync && (old(self).pending_pieces()
                    > 0 || old(self).held_data().len() > 0) {
                    &&& r matches StreamStep::Audit { window } && window@ == old(self).window()
                    &&& final(self).is_closing()
                    &&& final(self).pending_pieces() == 0
                    &&& final(self).held_data() == old(self).held_data()
                    &&& final(self).window() == old(self).window()
                    &&& final(self).async_window() == old(self).async_window()
                } else {
                    &&& emits(
                        r,
                        data_frames(old(self).held_data()) + seq![(false, done_text())],
                        true,
                        if old(self).spec_mode() == AuditMode::Async && old(self).async_window().len()
                            > 0 {
                            Some(old(self).async_window())
                        } else {
                            None
                        },
                    )
                    &&& final(self).held_data() == Seq::<Seq<char>>::empty()
                    &&& final(self).pending_pieces() == old(self).pending_pieces()
                    &&& final(self).window() == old(self).window()
                    &&& final(self).async_window() == old(self).async_window()
                },
                SseEvent::Error(m) => {
                    &&& emits(
                        r,
                        seq![
                            (true, error_payload_text(m@, "llm_shadow_stream_error"@)),
                            (false, done_text()),
                        ],
                        true,
                        None,
                    )
                    &&& final(self).held_data() == Seq::<Seq<char>>::empty()
                    &&& final(self).pending_pieces() == old(self).pending_pieces()
                    &&& final(self).window() == old(self).window()
                    &&& final(self).async_window() == old(self).async_window()
                },
            },
    {
        match event {
            SseEvent::Message { event: _, data } => {
                let text = match &chunk {
                    Some(c) => ContentExtractor::extract_from_chunk(c),
                    None => String::new(),
                };
                proof {
                    if chunk is None {
                        assert(text@ =~= chunk_text(chunk));
                    }
                }
                let audit = self.on_content(text.as_str());
                let hold = match self.mode {
                    AuditMode::Async => false,
                    AuditMode::Sync => !text.as_str().is_empty() || self.held.len() > 0,
                };
                let mut frames: Vec<StreamFrame> = Vec::new();
                if !hold {
                    frames.push(StreamFrame::Data(data));
                    assert(frames@.map_values(|x: StreamFrame| frame_view(x)) =~= seq![(false, data@)]);
                    return StreamStep::Emit { frames, finished: false, background: None };
                }
                let ghost before = self.held_data();
                self.held.push(data);
                assert(self.held_data() =~= before.push(data@));
                match audit {
                    Some(window) => StreamStep::Audit { window },
                    None => {
                        assert(frames@.map_values(|x: StreamFrame| frame_view(x)) =~= Seq::<(bool, Seq<char>)>::empty());
                        StreamStep::Emit { frames, finished: false, background: None }
                    },
                }
            },
            SseEvent::Done => {
                let unaudited = match self.mode {
                    AuditMode::Sync => self.pending > 0 || self.held.len() > 0,
                    AuditMode::Async => false,
                };
                if unaudited {
                    self.pending = 0;
                    self.closing = true;
                    return StreamStep::Audit { window: string_from_chars(self.audit_buffer.as_slice()) };
                }
                let background = self.on_done();
                let mut frames = self.release();
                let ghost released = frames@.map_values(|x: StreamFrame| frame_view(x));
                frames.push(StreamFrame::Data("[DONE]".to_string()));
                assert(frames@.map_values(|x: StreamFrame| frame_view(x)) =~= released + seq![(false, done_text())]);
                StreamStep::Emit { frames, finished: true, background }
            },
            SseEvent::Error(m) => {
                let _dropped = self.release();
                let mut frames: Vec<StreamFrame> = Vec::new();
                frames.push(StreamFrame::Error(stream_failure_payload(m.as_str())));
                frames.push(StreamFrame::Data("[DONE]".to_string()));
                assert(frames@.map_values(|x: StreamFrame| frame_view(x)) =~= seq![
                    (true, error_payload_text(m@, "llm_shadow_stream_error"@)),
                    (false, done_text()),
                ]);
                StreamStep::Emit { frames, finished: true, background: None }
            },
        }
    }

    /// Takes the held data out, as data frames in order.
    fn release(&mut self) -> (frames: Vec<StreamFrame>)
        ensures
            frames@.map_values(|x: StreamFrame| frame_view(x)) == data_frames(old(self).held_data()),
            final(self).held_data() == Seq::<Seq<char>>::empty(),
            final(self).spec_mode() == old(self).spec_mode(),
            final(self).spec_batch_size() == old(self).spec_batch_size(),
            final(self).pending_pieces() == old(self).pending_pieces(),
            final(self).window() == old(self).window(),
            final(self).async_window() == old(self).async_window(),
            final(self).is_closing() == old(self).is_closing(),
    {
        let mut held: Vec<String> = Vec::new();
        std::mem::swap(&mut held, &mut self.held);
        let mut frames: Vec<StreamFrame> = Vec::new();
        let mut i: usize = 0;
        while i < held.len()
            invariant
                i <= held@.len(),
                frames@.map_values(|x: StreamFrame| frame_view(x)) == data_frames(
                    held@.map_values(|d: String| d@).take(i as int),
                ),
            decreases held@.len() - i,
        {
            let ghost before = frames@;
            frames.push(StreamFrame::Data(held[i].clone()));
            assert(frames@.map_values(|x: StreamFrame| frame_view(x)) =~= before.map_values(
                |x: StreamFrame| frame_view(x),
            ).push((false, held@[i as int]@)));
            assert(held@.map_values(|d: String| d@).take(i + 1) =~= held@.map_values(|d: String| d@).take(
                i as int,
            ).push(held@[i as int]@));
            assert(data_frames(held@.map_values(|d: String| d@).take(i + 1)) =~= data_frames(
                held@.map_values(|d: String| d@).take(i as int),
            ).push((false, held@[i as int]@)));
            i = i + 1;
        }
        assert(held@.map_values(|d: String| d@).take(i as int) =~= held@.map_values(|d: String| d@));
        assert(self.held_data() =~= Seq::<Seq<char>>::empty());
        frames
    }

    /// The step once the audit of the window has answered.  A decision that
    /// blocks drops the held data, sends the blocked error event, then
    /// `[DONE]`, and ends the stream.  Otherwise (the window is allowed, or
    /// the audit call failed) the held data is sent on, followed by
    /// `[DONE]` and the end of the stream when the stream was closing.
    pub fn on_audit_result(&mut self, result: Result<AuditDecision, Error>) -> (r: StreamStep)
        ensures
            final(self).held_data() == Seq::<Seq<char>>::empty(),
            final(self).spec_mode() == old(self).spec_mode(),
            final(self).spec_batch_size() == old(self).spec_batch_size(),
            final(self).pending_pieces() == old(self).pending_pieces(),
            final(self).window() == old(self).window(),
            final(self).async_window() == old(self).async_window(),
            (result matches Ok(d) && !d.allowed) ==> emits(
                r,
                seq![(true, blocked_stream_payload(result->Ok_0)), (false, done_text())],
                true,
                None,
            ),
            !(result matches Ok(d) && !d.allowed) ==> emits(
                r,
                data_frames(old(self).held_data()) + (if old(self).is_closing() {
                    seq![(false, done_text())]
                } else {
                    Seq::empty()
                }),
                old(self).is_closing(),
                None,
            ),
    {
        let mut frames = self.release();
        if let Ok(d) = &result {
            if let Some(payload) = self.on_audit_decision(d) {
                let mut out: Vec<StreamFrame> = Vec::new();
                out.push(StreamFrame::Error(payload));
                out.push(StreamFrame::Data("[DONE]".to_string()));
                assert(out@.map_values(|x: StreamFrame| frame_view(x)) =~= seq![
                    (true, blocked_stream_payload(result->Ok_0)),
                    (false, done_text()),
                ]);
                return StreamStep::Emit { frames: out, finished: true, background: None };
            }
        }
        let closing = self.closing;
        let ghost released = frames@.map_values(|x: StreamFrame| frame_view(x));
        if closing {
            frames.push(StreamFrame::Data("[DONE]".to_string()));
            assert(frames@.map_values(|x: StreamFrame| frame_view(x)) =~= released + seq![(false, done_text())]);
        } else {
            assert(released =~= released + Seq::<(bool, Seq<char>)>::empty());
        }
        StreamStep::Emit { frames, finished: closing, background: None }
    }

    /// The text to audit in the background when the stream is done: the
    /// async window, in async mode, when it is not empty.
    pub fn on_done(&self) -> (r: Option<String>)
        ensures
            (self.spec_mode() == AuditMode::Async && self.async_window().len() > 0) ==> (r matches Some(
                t,
            ) && t@ == self.async_window()),
            !(self.spec_mode() == AuditMode::Async && self.async_window().len() > 0) ==> r is None,
    {
        match self.mode {
            AuditMode::Async => {
                if self.async_buffer.len() > 0 {
                    Some(string_from_chars(self.async_buffer.as_slice()))
                } else {
                    None
                }
            },
            AuditMode::Sync => None,
        }
    }
}

/// The payload of the error event for a broken upstream stream.
pub fn stream_failure_payload(message: &str) -> (r: String)
    ensures
        r@ == error_payload_text(message@, "llm_shadow_stream_error"@),
{
    error_payload(message, "llm_shadow_stream_error")
}

} // verus!

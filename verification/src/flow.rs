//! The course of one non-streamed request through the relay: the request
//! is audited, then forwarded, then the answer is audited (sync mode) or
//! given at once and audited in the background (async mode).
use vstd::prelude::*;
use crate::config::AuditMode;
use crate::error::{AuditDecision, Error};

verus! {

/// Where a request stands.
#[derive(Debug, Clone, Copy, PartialEq, Eq, Structural)]
pub enum Phase {
    /// Waiting for the audit of the client's request.
    AuditingRequest,
    /// Waiting for the upstream's answer.
    AwaitingUpstream,
    /// Waiting for the audit of the upstream's answer.
    AuditingResponse,
    /// Answered.
    Finished,
}

/// What has just happened to a request.
#[derive(Debug)]
pub enum FlowEvent {
    /// The request's audit came back.
    RequestAudited(Result<AuditDecision, Error>),
    /// The upstream answered with a success and a readable body, or failed.
    UpstreamAnswered(Result<(), Error>),
    /// The audit of the upstream's answer came back.
    ResponseAudited(Result<AuditDecision, Error>),
}

/// What the relay does next.
#[derive(Debug)]
pub enum FlowAction {
    /// Send the request upstream.
    Forward,
    /// Ask the audit model about the upstream's answer, holding the answer.
    AuditResponse,
    /// Give the answer now and audit it in the background.
    AnswerNow,
    /// Give the answer, with the decision of its audit for the headers.
    Answer(AuditDecision),
    /// Answer with this error.
    Fail(Error),
}

/// The message of a request step taken out of order.
pub open spec fn out_of_order_message() -> Seq<char> {
    "Request steps out of order"@
}

/// The message of an answer whose audit blocks it and gives no reason.
pub open spec fn response_block_message() -> Seq<char> {
    "Audit blocked"@
}

/// `a` fails with an audit block whose message is `b`'s reason, or
/// `default` when `b` gives none.
pub open spec fn blocked_with(a: FlowAction, b: AuditDecision, default: Seq<char>) -> bool {
    a matches FlowAction::Fail(Error::AuditBlocked(m)) && m@ == (match b.blocked_reason {
        Some(r) => r@,
        None => default,
    })
}

/// The state of one request.
pub struct RequestFlow {
    mode: AuditMode,
    phase: Phase,
    request_block_reason: String,
}

impl RequestFlow {
    /// Only a sync-mode request waits for the audit of its answer.
    #[verifier::type_invariant]
    closed spec fn inv(&self) -> bool {
        self.phase == Phase::AuditingResponse ==> self.mode == AuditMode::Sync
    }

    /// The audit mode.
    pub closed spec fn spec_mode(&self) -> AuditMode {
        self.mode
    }

    /// Where the request stands.
    pub closed spec fn spec_phase(&self) -> Phase {
        self.phase
    }

    /// The message of a request that the audit blocks without a reason.
    pub closed spec fn spec_request_block_reason(&self) -> Seq<char> {
        self.request_block_reason@
    }

    /// A request about to be audited.
    pub fn new(mode: AuditMode, request_block_reason: &str) -> (f: Self)
        ensures
            f.spec_mode() == mode,
            f.spec_phase() == Phase::AuditingRequest,
            f.spec_request_block_reason() == request_block_reason@,
    {
        RequestFlow { mode, phase: Phase::AuditingRequest, request_block_reason: request_block_reason.to_string() }
    }

    /// Where the request stands.
    pub fn phase(&self) -> (p: Phase)
        ensures
            p == self.spec_phase(),
    {
        self.phase
    }

    /// The next action after `event`.
    ///
    /// - A request audit that allows the request forwards it; one that
    ///   blocks it fails with its reason (or the flow's default); a failed
    ///   audit fails with its error.
    /// - An upstream answer is audited in sync mode, and given at once in
    ///   async mode; an upstream failure fails with its error.
    /// - An answer audit that allows the answer gives it with the decision;
    ///   one that blocks fails with its reason (or `Audit blocked`); a
    ///   failed audit fails with its error.
    /// - An event that does not fit where the request stands fails it.
    ///
    /// So a request is forwarded only after its audit allowed it, and in
    /// sync mode an answer is given only after its audit allowed it.
    pub fn step(&mut self, event: FlowEvent) -> (r: FlowAction)
        ensures
            final(self).spec_mode() == old(self).spec_mode(),
            final(self).spec_request_block_reason() == old(self).spec_request_block_reason(),
            r is Forward ==> (old(self).spec_phase() == Phase::AuditingRequest && (event matches FlowEvent::RequestAudited(
                Ok(d),
            ) && d.allowed)),
            r is Answer ==> (old(self).spec_mode() == AuditMode::Sync && old(self).spec_phase()
                == Phase::AuditingResponse && (event matches FlowEvent::ResponseAudited(Ok(d))
                && d.allowed)),
            r is AnswerNow ==> old(self).spec_mode() == AuditMode::Async,
            match (old(self).spec_phase(), event) {
                (Phase::AuditingRequest, FlowEvent::RequestAudited(Ok(d))) => if d.allowed {
                    r is Forward && final(self).spec_phase() == Phase::AwaitingUpstream
                } else {
                    blocked_with(r, d, old(self).spec_request_block_reason())
                        && final(self).spec_phase() == Phase::Finished
                },
                (Phase::AuditingRequest, FlowEvent::RequestAudited(Err(e))) => r == FlowAction::Fail(e)
                    && final(self).spec_phase() == Phase::Finished,
                (Phase::AwaitingUpstream, FlowEvent::UpstreamAnswered(Ok(()))) => match old(
                    self,
                ).spec_mode() {
                    AuditMode::Sync => r is AuditResponse && final(self).spec_phase()
                        == Phase::AuditingResponse,
                    AuditMode::Async => r is AnswerNow && final(self).spec_phase() == Phase::Finished,
                },
                (Phase::AwaitingUpstream, FlowEvent::UpstreamAnswered(Err(e))) => r == FlowAction::Fail(e)
                    && final(self).spec_phase() == Phase::Finished,
                (Phase::AuditingResponse, FlowEvent::ResponseAudited(Ok(d))) => (if d.allowed {
                    r == FlowAction::Answer(d)
                } else {
                    blocked_with(r, d, response_block_message())
                }) && final(self).spec_phase() == Phase::Finished,
                (Phase::AuditingResponse, FlowEvent::ResponseAudited(Err(e))) => r == FlowAction::Fail(e)
                    && final(self).spec_phase() == Phase::Finished,
                _ => (r matches FlowAction::Fail(Error::InvalidRequest(m)) && m@ == out_of_order_message())
                    && final(self).spec_phase() == Phase::Finished,
            },
    {
        proof {
            use_type_invariant(&*self);
        }
        let phase = self.phase;
        self.phase = Phase::Finished;
        match event {
            FlowEvent::RequestAudited(result) => {
                if phase != Phase::AuditingRequest {
                    return FlowAction::Fail(Error::InvalidRequest("Request steps out of order".to_string()));
                }
                match result {
                    Ok(d) => {
                        if d.allowed {
                            self.phase = Phase::AwaitingUpstream;
                            FlowAction::Forward
                        } else {
                            let m = match &d.blocked_reason {
                                Some(b) => b.clone(),
                                None => self.request_block_reason.clone(),
                            };
                            FlowAction::Fail(Error::AuditBlocked(m))
                        }
                    },
                    Err(e) => FlowAction::Fail(e),
                }
            },
            FlowEvent::UpstreamAnswered(result) => {
                if phase != Phase::AwaitingUpstream {
                    return FlowAction::Fail(Error::InvalidRequest("Request steps out of order".to_string()));
                }
                match result {
                    Ok(()) => match self.mode {
                        AuditMode::Sync => {
                            self.phase = Phase::AuditingResponse;
                            FlowAction::AuditResponse
                        },
                        AuditMode::Async => FlowAction::AnswerNow,
                    },
                    Err(e) => FlowAction::Fail(e),
                }
            },
            FlowEvent::ResponseAudited(result) => {
                if phase != Phase::AuditingResponse {
                    return FlowAction::Fail(Error::InvalidRequest("Request steps out of order".to_string()));
                }
                match result {
                    Ok(d) => {
                        if d.allowed {
                            FlowAction::Answer(d)
                        } else {
                            let m = match &d.blocked_reason {
                                Some(b) => b.clone(),
                                None => "Audit blocked".to_string(),
                            };
                            FlowAction::Fail(Error::AuditBlocked(m))
                        }
                    },
                    Err(e) => FlowAction::Fail(e),
                }
            },
        }
    }
}

} // verus!

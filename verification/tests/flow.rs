use llm_shadow_relay::config::AuditMode;
use llm_shadow_relay::error::{AuditDecision, Error};
use llm_shadow_relay::flow::{FlowAction, FlowEvent, Phase, RequestFlow};

fn blocked(reason: Option<&str>) -> AuditDecision {
    let mut d = AuditDecision::block("x", "high", 0);
    d.blocked_reason = reason.map(|r| r.to_string());
    d
}

#[test]
fn sync_request_is_forwarded_then_held_for_the_answer_audit() {
    let mut f = RequestFlow::new(AuditMode::Sync, "Request blocked");
    assert!(matches!(f.step(FlowEvent::RequestAudited(Ok(AuditDecision::pass()))), FlowAction::Forward));
    assert_eq!(f.phase(), Phase::AwaitingUpstream);
    assert!(matches!(f.step(FlowEvent::UpstreamAnswered(Ok(()))), FlowAction::AuditResponse));
    assert!(matches!(f.step(FlowEvent::ResponseAudited(Ok(AuditDecision::pass()))), FlowAction::Answer(d) if d.allowed));
    assert_eq!(f.phase(), Phase::Finished);
}

#[test]
fn async_request_is_answered_at_once() {
    let mut f = RequestFlow::new(AuditMode::Async, "Request blocked");
    assert!(matches!(f.step(FlowEvent::RequestAudited(Ok(AuditDecision::pass()))), FlowAction::Forward));
    assert!(matches!(f.step(FlowEvent::UpstreamAnswered(Ok(()))), FlowAction::AnswerNow));
}

#[test]
fn blocked_or_failed_steps_end_the_request() {
    let mut f = RequestFlow::new(AuditMode::Sync, "Request blocked: prompt injection detected");
    match f.step(FlowEvent::RequestAudited(Ok(blocked(None)))) {
        FlowAction::Fail(Error::AuditBlocked(m)) => assert_eq!(m, "Request blocked: prompt injection detected"),
        _ => panic!("expected a block"),
    }
    assert_eq!(f.phase(), Phase::Finished);
    let mut f = RequestFlow::new(AuditMode::Sync, "Request blocked");
    f.step(FlowEvent::RequestAudited(Ok(AuditDecision::pass())));
    assert!(matches!(
        f.step(FlowEvent::UpstreamAnswered(Err(Error::UpstreamApi(503, "busy".to_string())))),
        FlowAction::Fail(Error::UpstreamApi(503, _))
    ));
    let mut f = RequestFlow::new(AuditMode::Sync, "Request blocked");
    f.step(FlowEvent::RequestAudited(Ok(AuditDecision::pass())));
    f.step(FlowEvent::UpstreamAnswered(Ok(())));
    match f.step(FlowEvent::ResponseAudited(Ok(blocked(None)))) {
        FlowAction::Fail(Error::AuditBlocked(m)) => assert_eq!(m, "Audit blocked"),
        _ => panic!("expected a block"),
    }
    let mut f = RequestFlow::new(AuditMode::Sync, "Request blocked");
    match f.step(FlowEvent::UpstreamAnswered(Ok(()))) {
        FlowAction::Fail(Error::InvalidRequest(m)) => assert_eq!(m, "Request steps out of order"),
        _ => panic!("expected out of order"),
    }
}

use rtr_validator::collector::RoaCollector;
use rtr_validator::prefix::{AddressFamily, RoutePrefix};
use rtr_validator::roa::{Action, Payload, RouteOrigin, Timing};
use rtr_validator::session::{
    classify, conclude, judge_connect, session_deadline, ConnectEnd, ErrorCategory, FatalError,
    RunEnd, SessionError, SessionOutcome, CONNECT_DEADLINE_SECS, DEFAULT_SESSION_DEADLINE_SECS,
};

fn error(category: ErrorCategory, message: &str) -> SessionError {
    SessionError { category, message: message.to_string() }
}

fn origin(asn: u32) -> RouteOrigin {
    RouteOrigin {
        prefix: RoutePrefix { family: AddressFamily::V4, addr: 0x0a00_0000, len: 24 },
        max_len: None,
        asn,
    }
}

fn collector_with(origins: &[RouteOrigin]) -> RoaCollector {
    let mut collector = RoaCollector::new();
    let batch = origins.iter().map(|o| (Action::Announce, Payload::Origin(*o))).collect();
    let _ = collector.apply(batch, Timing { refresh: 1, retry: 1, expire: 1 });
    collector
}

#[test]
fn a_returned_loop_is_completed() {
    assert_eq!(classify(RunEnd::Returned), SessionOutcome::Completed);
}

#[test]
fn an_elapsed_deadline_is_timed_out() {
    assert_eq!(classify(RunEnd::DeadlineElapsed), SessionOutcome::TimedOut);
}

#[test]
fn an_error_of_category_other_is_the_stop_signal() {
    let end = RunEnd::Errored(error(ErrorCategory::Other, ""));
    assert_eq!(classify(end), SessionOutcome::SignaledDone);
    let end = RunEnd::Errored(error(ErrorCategory::Other, "anything at all"));
    assert_eq!(classify(end), SessionOutcome::SignaledDone);
}

#[test]
fn a_message_that_holds_the_stop_text_is_the_stop_signal() {
    let end = RunEnd::Errored(error(ErrorCategory::Specific, "payload was corrupt"));
    assert_eq!(classify(end), SessionOutcome::SignaledDone);
    let end = RunEnd::Errored(error(ErrorCategory::Specific, "corrupted"));
    assert_eq!(classify(end), SessionOutcome::SignaledDone);
}

#[test]
fn any_other_error_is_a_failure_that_carries_the_error() {
    let end = RunEnd::Errored(error(ErrorCategory::Specific, "version has changed"));
    assert_eq!(
        classify(end),
        SessionOutcome::Failed(error(ErrorCategory::Specific, "version has changed"))
    );
    let end = RunEnd::Errored(error(ErrorCategory::Specific, "corrup data set"));
    assert_eq!(
        classify(end),
        SessionOutcome::Failed(error(ErrorCategory::Specific, "corrup data set"))
    );
    let end = RunEnd::Errored(error(ErrorCategory::Specific, ""));
    assert_eq!(classify(end), SessionOutcome::Failed(error(ErrorCategory::Specific, "")));
}

#[test]
fn reports_stop_reads_category_and_message() {
    assert!(error(ErrorCategory::Other, "").reports_stop());
    assert!(error(ErrorCategory::Specific, "corrupt").reports_stop());
    assert!(!error(ErrorCategory::Specific, "CORRUPT").reports_stop());
    assert!(!error(ErrorCategory::Specific, "connection reset").reports_stop());
}

#[test]
fn every_outcome_but_a_failure_is_usable() {
    assert!(SessionOutcome::Completed.is_usable());
    assert!(SessionOutcome::SignaledDone.is_usable());
    assert!(SessionOutcome::TimedOut.is_usable());
    assert!(!SessionOutcome::Failed(error(ErrorCategory::Specific, "broken pipe")).is_usable());
}

#[test]
fn a_usable_outcome_hands_on_what_was_gathered() {
    let held = [origin(64500), origin(64501)];
    assert_eq!(conclude(SessionOutcome::Completed, collector_with(&held)), Ok(held.to_vec()));
    assert_eq!(conclude(SessionOutcome::SignaledDone, collector_with(&held)), Ok(held.to_vec()));
    assert_eq!(conclude(SessionOutcome::TimedOut, collector_with(&held)), Ok(held.to_vec()));
}

#[test]
fn a_usable_outcome_without_any_origin_is_an_empty_result() {
    assert_eq!(conclude(SessionOutcome::Completed, RoaCollector::new()), Err(FatalError::EmptyResult));
    assert_eq!(
        conclude(SessionOutcome::SignaledDone, RoaCollector::new()),
        Err(FatalError::EmptyResult)
    );
    assert_eq!(conclude(SessionOutcome::TimedOut, RoaCollector::new()), Err(FatalError::EmptyResult));
}

#[test]
fn a_failure_is_passed_on_whatever_was_gathered() {
    let failed = || SessionOutcome::Failed(error(ErrorCategory::Specific, "broken pipe"));
    let passed_on = Err(FatalError::Session(error(ErrorCategory::Specific, "broken pipe")));
    assert_eq!(conclude(failed(), collector_with(&[origin(64500)])), passed_on);
    assert_eq!(conclude(failed(), RoaCollector::new()), passed_on);
}

#[test]
fn only_a_standing_connection_lets_the_session_begin() {
    assert_eq!(judge_connect(ConnectEnd::Connected), Ok(()));
    assert_eq!(judge_connect(ConnectEnd::Refused), Err(FatalError::Connect));
    assert_eq!(judge_connect(ConnectEnd::DeadlineElapsed), Err(FatalError::Connect));
}

#[test]
fn the_session_deadline_defaults_to_a_minute() {
    assert_eq!(session_deadline(None), 60);
    assert_eq!(session_deadline(None), DEFAULT_SESSION_DEADLINE_SECS);
    assert_eq!(session_deadline(Some(30)), 30);
    assert_eq!(session_deadline(Some(0)), 0);
    assert_eq!(CONNECT_DEADLINE_SECS, 10);
}

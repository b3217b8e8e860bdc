use flowforge::agent::AgentStage;
use flowforge::stage::{
    async_not_implemented, join_error_message, needs_sync_fallback, panic_error_message,
    sync_not_implemented, AttemptOutcome, RetryState, RunStep,
};
use flowforge::text::{contains_text, decimal_string};
use flowforge::utils::lock_failure_message;

fn failed(e: &str) -> AttemptOutcome {
    AttemptOutcome::Failed(e.to_string())
}

#[test]
fn success_finishes_at_once() {
    let mut r = RetryState::new(AgentStage::TransformData, 3);
    assert!(matches!(r.on_attempt(AttemptOutcome::Succeeded), RunStep::Finished));
    assert_eq!(r.attempts(), 1);
}

#[test]
fn failures_retry_until_the_retry_count() {
    let mut r = RetryState::new(AgentStage::TransformData, 3);
    assert!(matches!(r.on_attempt(failed("e1")), RunStep::Retry));
    assert!(matches!(r.on_attempt(AttemptOutcome::TimedOut), RunStep::Retry));
    match r.on_attempt(failed("e3")) {
        RunStep::GiveUp(m) => assert_eq!(m, "Stage TransformData failed after 3 attempts: e3"),
        _ => panic!("expected to give up"),
    }
}

#[test]
fn timeouts_give_up_with_their_own_message() {
    let mut r = RetryState::new(AgentStage::TransformData, 2);
    assert!(matches!(r.on_attempt(AttemptOutcome::TimedOut), RunStep::Retry));
    match r.on_attempt(AttemptOutcome::TimedOut) {
        RunStep::GiveUp(m) => assert_eq!(m, "Stage TransformData timed out after 2 attempts"),
        _ => panic!("expected to give up"),
    }
}

#[test]
fn zero_retries_still_make_one_attempt() {
    let mut r = RetryState::new(AgentStage::TransformData, 0);
    match r.on_attempt(failed("x")) {
        RunStep::GiveUp(m) => assert_eq!(m, "Stage TransformData failed after 1 attempts: x"),
        _ => panic!("expected to give up"),
    }
    let mut r = RetryState::new(AgentStage::TransformData, 1);
    assert!(matches!(r.on_attempt(AttemptOutcome::TimedOut), RunStep::GiveUp(_)));
}

#[test]
fn a_late_success_still_finishes() {
    let mut r = RetryState::new(AgentStage::TransformData, 5);
    for _ in 0..4 {
        assert!(matches!(r.on_attempt(failed("again")), RunStep::Retry));
    }
    assert!(matches!(r.on_attempt(AttemptOutcome::Succeeded), RunStep::Finished));
    assert_eq!(r.attempts(), 5);
}

#[test]
fn many_attempts_print_in_decimal() {
    let mut r = RetryState::new(AgentStage::TransformData, 12);
    for _ in 0..11 {
        assert!(matches!(r.on_attempt(AttemptOutcome::TimedOut), RunStep::Retry));
    }
    match r.on_attempt(failed("z")) {
        RunStep::GiveUp(m) => assert_eq!(m, "Stage TransformData failed after 12 attempts: z"),
        _ => panic!("expected to give up"),
    }
}

#[test]
fn fallback_to_blocking_process() {
    assert!(needs_sync_fallback(&async_not_implemented()));
    assert!(needs_sync_fallback("wrapped: Async process not implemented (default)"));
    assert!(!needs_sync_fallback("Async process failed"));
    assert!(!needs_sync_fallback(""));
    assert_eq!(sync_not_implemented(), "Sync process not implemented");
}

#[test]
fn panic_and_join_messages() {
    assert_eq!(panic_error_message(Some("oops")), "Task panicked: oops");
    assert_eq!(panic_error_message(None), "Task panicked: Unknown panic message");
    assert_eq!(join_error_message("cancelled"), "Task join error: cancelled");
    assert_eq!(lock_failure_message("before process agent"), "Failed to acquire lock in before process agent");
}

#[test]
fn decimal_strings() {
    assert_eq!(decimal_string(0), "0");
    assert_eq!(decimal_string(7), "7");
    assert_eq!(decimal_string(10), "10");
    assert_eq!(decimal_string(4096), "4096");
    assert_eq!(decimal_string(u32::MAX), "4294967295");
}

#[test]
fn text_containment() {
    assert!(contains_text("abcabd", "abd"));
    assert!(contains_text("abc", ""));
    assert!(contains_text("", ""));
    assert!(!contains_text("ab", "abc"));
    assert!(!contains_text("aab", "abb"));
    assert!(contains_text("héllo wörld", "ö"));
}

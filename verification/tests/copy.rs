use godspeed::copy::{copy_with_retry, CopyAction, CopyEvent, CopyRetry};
use godspeed::error::AppError;

fn failed(code: Option<i32>, message: &str) -> CopyEvent {
    CopyEvent::Failed { raw_os_error: code, message: message.to_string() }
}

/// Hands `events` to a copy and collects every action, the first included.
fn run(max: u32, events: Vec<CopyEvent>) -> (CopyRetry, Vec<CopyAction>) {
    let (mut copy, first) = copy_with_retry(max);
    let mut actions = vec![first];
    for event in events {
        if let Some(action) = copy.step(event) {
            actions.push(action);
        }
    }
    (copy, actions)
}

#[test]
fn a_copy_that_succeeds_at_once_is_over() {
    let (copy, actions) = run(3, vec![CopyEvent::Copied]);
    assert_eq!(actions, vec![CopyAction::Attempt, CopyAction::Finish(Ok(()))]);
    assert!(copy.finished);
    assert_eq!(copy.attempts, 1);
}

#[test]
fn sharing_violations_are_retried_after_a_wait() {
    let (copy, actions) = run(3, vec![failed(Some(32), "in use"), failed(Some(33), "locked"), CopyEvent::Copied]);
    assert_eq!(
        actions,
        vec![
            CopyAction::Attempt,
            CopyAction::WaitThenAttempt { millis: 500 },
            CopyAction::WaitThenAttempt { millis: 500 },
            CopyAction::Finish(Ok(())),
        ]
    );
    assert_eq!(copy.attempts, 3);
}

#[test]
fn the_last_attempt_is_not_followed_by_a_wait() {
    let (copy, actions) = run(
        3,
        vec![failed(Some(32), "first"), failed(Some(32), "second"), failed(Some(32), "third"), CopyEvent::Copied],
    );
    assert_eq!(
        actions,
        vec![
            CopyAction::Attempt,
            CopyAction::WaitThenAttempt { millis: 500 },
            CopyAction::WaitThenAttempt { millis: 500 },
            CopyAction::Finish(Err(AppError::Io("third".to_string()))),
        ]
    );
    assert_eq!(copy.attempts, 3);
    assert!(copy.finished);
}

#[test]
fn any_other_failure_ends_the_copy_without_a_wait() {
    for code in [None, Some(5), Some(2), Some(31), Some(34), Some(0), Some(-32)] {
        let (copy, actions) = run(3, vec![failed(code, "denied"), CopyEvent::Copied]);
        assert_eq!(
            actions,
            vec![CopyAction::Attempt, CopyAction::Finish(Err(AppError::Io("denied".to_string())))]
        );
        assert_eq!(copy.attempts, 1);
    }
}

#[test]
fn a_single_attempt_is_never_retried() {
    let (_, actions) = run(1, vec![failed(Some(32), "in use")]);
    assert_eq!(actions, vec![CopyAction::Attempt, CopyAction::Finish(Err(AppError::Io("in use".to_string())))]);
}

#[test]
fn no_attempt_allowed_fails_without_one() {
    let (mut copy, first) = copy_with_retry(0);
    assert_eq!(first, CopyAction::Finish(Err(AppError::Logic("Copy failed with unknown error".to_string()))));
    assert!(copy.finished);
    assert_eq!(copy.attempts, 0);
    assert_eq!(copy.step(CopyEvent::Copied), None);
}

#[test]
fn the_number_of_attempts_never_exceeds_the_limit() {
    for max in 0u32..6 {
        let events: Vec<CopyEvent> = (0..10).map(|i| failed(Some(32 + (i % 2)), "busy")).collect();
        let (copy, actions) = run(max, events);
        let attempts = actions.iter().filter(|a| !matches!(a, CopyAction::Finish(_))).count();
        let waits = actions.iter().filter(|a| matches!(a, CopyAction::WaitThenAttempt { .. })).count();
        assert_eq!(attempts as u32, max);
        assert_eq!(copy.attempts, max);
        assert_eq!(waits as u32, max.saturating_sub(1));
        assert!(matches!(actions.last(), Some(CopyAction::Finish(Err(_)))));
    }
}

use fleetwake::connect::{
    Attempt, ConnectFailure, ConnectPhase, BACKOFF_SECS, MAX_FAILURES, SETTLE_SECS,
    WAKE_AT_FAILURES,
};

fn replay(results: &[bool], has_wake_address: bool) -> (ConnectPhase, u32, u32) {
    let mut phase = ConnectPhase::start();
    let mut attempts = 0;
    let mut wakes = 0;
    for &connected in results {
        match phase.pending() {
            None => break,
            Some(attempt) => {
                attempts += 1;
                if attempt.wake {
                    wakes += 1;
                }
            }
        }
        phase = phase.record(connected, has_wake_address);
    }
    (phase, attempts, wakes)
}

#[test]
fn thresholds_have_their_values() {
    assert_eq!(WAKE_AT_FAILURES, 2);
    assert_eq!(MAX_FAILURES, 5);
    assert_eq!(BACKOFF_SECS, 3);
    assert_eq!(SETTLE_SECS, 60);
}

#[test]
fn first_attempt_is_made_at_once() {
    let phase = ConnectPhase::start();
    assert_eq!(phase, ConnectPhase::NotStarted);
    assert_eq!(phase.pending(), Some(Attempt { wake: false, wait_secs: 0 }));
    assert!(!phase.did_wake());
    assert_eq!(phase.failure(), None);
}

#[test]
fn immediate_success_did_not_wake() {
    let (phase, attempts, wakes) = replay(&[true], true);
    assert_eq!(phase, ConnectPhase::Connected { did_wake: false });
    assert_eq!(attempts, 1);
    assert_eq!(wakes, 0);
    assert_eq!(phase.pending(), None);
}

#[test]
fn one_failure_backs_off_without_wake() {
    let (phase, _, wakes) = replay(&[false], true);
    assert_eq!(phase, ConnectPhase::Retrying { failures: 1 });
    assert_eq!(phase.pending(), Some(Attempt { wake: false, wait_secs: 3 }));
    assert_eq!(wakes, 0);
    let (phase, attempts, wakes) = replay(&[false, true], true);
    assert_eq!(phase, ConnectPhase::Connected { did_wake: false });
    assert_eq!(attempts, 2);
    assert_eq!(wakes, 0);
}

#[test]
fn second_failure_without_address_fails_at_once() {
    let (phase, attempts, wakes) = replay(&[false, false, true, true], false);
    assert_eq!(phase, ConnectPhase::Failed(ConnectFailure::NoWakeAddress));
    assert_eq!(attempts, 2);
    assert_eq!(wakes, 0);
    assert_eq!(phase.pending(), None);
    assert_eq!(phase.failure(), Some(ConnectFailure::NoWakeAddress));
}

#[test]
fn second_failure_with_address_wakes_before_third_attempt() {
    let (phase, attempts, wakes) = replay(&[false, false], true);
    assert_eq!(phase, ConnectPhase::WokeWaiting);
    assert_eq!(attempts, 2);
    assert_eq!(wakes, 0);
    assert_eq!(phase.pending(), Some(Attempt { wake: true, wait_secs: 63 }));
    assert!(phase.did_wake());
    let (phase, attempts, wakes) = replay(&[false, false, true], true);
    assert_eq!(phase, ConnectPhase::Connected { did_wake: true });
    assert_eq!(attempts, 3);
    assert_eq!(wakes, 1);
}

#[test]
fn later_failures_do_not_wake_again() {
    let (phase, attempts, wakes) = replay(&[false, false, false, false, false], true);
    assert_eq!(phase, ConnectPhase::Retrying { failures: 5 });
    assert_eq!(phase.pending(), Some(Attempt { wake: false, wait_secs: 3 }));
    assert_eq!(attempts, 5);
    assert_eq!(wakes, 1);
    let (phase, attempts, wakes) = replay(&[false, false, false, false, false, true], true);
    assert_eq!(phase, ConnectPhase::Connected { did_wake: true });
    assert_eq!(attempts, 6);
    assert_eq!(wakes, 1);
}

#[test]
fn sixth_failure_exhausts() {
    let (phase, attempts, wakes) = replay(&[false; 6], true);
    assert_eq!(phase, ConnectPhase::Failed(ConnectFailure::Exhausted));
    assert_eq!(attempts, 6);
    assert_eq!(wakes, 1);
    let (phase, attempts, wakes) = replay(&[false, false, false, false, false, false, true], true);
    assert_eq!(phase, ConnectPhase::Failed(ConnectFailure::Exhausted));
    assert_eq!(attempts, 6);
    assert_eq!(wakes, 1);
    assert!(!matches!(phase, ConnectPhase::Connected { .. }));
}

#[test]
fn ended_phases_stay() {
    let connected = ConnectPhase::Connected { did_wake: true };
    assert_eq!(connected.record(false, true), connected);
    assert_eq!(connected.record(true, false), connected);
    let failed = ConnectPhase::Failed(ConnectFailure::Exhausted);
    assert_eq!(failed.record(true, true), failed);
    assert_eq!(failed.record(false, true), failed);
}

#[test]
fn failure_messages() {
    assert_eq!(
        ConnectFailure::NoWakeAddress.message(),
        "Could not connect to machine, no MAC address provided"
    );
    assert_eq!(ConnectFailure::Exhausted.message(), "Could not connect to machine");
    assert_eq!(
        ConnectFailure::TransportError.message(),
        "Could not connect to machine, transport failed"
    );
}

#[test]
fn counts_beyond_the_limit_exhaust() {
    let phase = ConnectPhase::Retrying { failures: u32::MAX };
    assert_eq!(phase.record(false, true), ConnectPhase::Failed(ConnectFailure::Exhausted));
    assert_eq!(phase.record(true, true), ConnectPhase::Connected { did_wake: true });
}

use fleetwake::config::{Machine, MachineFile};
use fleetwake::connect::{Attempt, ConnectFailure};
use fleetwake::maintenance::UpdateOutcome;
use fleetwake::sample::SampleParseFailure;
use fleetwake::session::{Action, Event, SessionError, Stage, UpdateSession};

fn profile(mac: Option<&str>, flatpak: bool, steam: bool, idle_minutes: u64) -> Machine {
    Machine::from_file(MachineFile {
        ssh: "h1".to_string(),
        mac: mac.map(|m| m.to_string()),
        cron: "0 0 4 * * *".to_string(),
        steam: Some(steam),
        steam_delay: Some(idle_minutes),
        flatpak: Some(flatpak),
    })
}

fn sampled(text: &str) -> Event {
    Event::Sampled { stdout: text.as_bytes().to_vec() }
}

#[test]
fn end_to_end_wake_update_monitor_shutdown() {
    let machine = profile(Some("AA:BB:CC:DD:EE:FF"), true, true, 5);
    let mut session = UpdateSession::new(machine);
    let mut performed = vec![session.pending()];
    assert_eq!(session.stage(), Stage::Connecting);

    performed.push(session.advance(Event::Attempted { connected: false }, 0));
    performed.push(session.advance(Event::Attempted { connected: false }, 3));
    assert_eq!(session.pending(), Action::Connect(Attempt { wake: true, wait_secs: 63 }));
    performed.push(session.advance(Event::Attempted { connected: true }, 66));
    assert!(session.did_wake());
    assert_eq!(session.stage(), Stage::Connected);
    assert_eq!(session.pending(), Action::ApplyUpdates);

    performed.push(session.advance(Event::CommandExited { success: true }, 100));
    assert_eq!(session.update_outcome(), Some(UpdateOutcome::Applied));
    assert_eq!(session.stage(), Stage::Maintaining);
    assert_eq!(session.pending(), Action::Sample { wait_secs: 0 });

    performed.push(session.advance(sampled("900\n"), 100));
    assert_eq!(session.pending(), Action::Sample { wait_secs: 1 });
    performed.push(session.advance(sampled("0\n"), 101));
    performed.push(session.advance(sampled("17\n"), 400));
    assert_eq!(session.stage(), Stage::Maintaining);
    performed.push(session.advance(sampled("17\n"), 401));
    assert_eq!(session.stage(), Stage::Monitoring);
    assert_eq!(session.pending(), Action::Shutdown);

    performed.push(session.advance(Event::CommandExited { success: true }, 402));
    assert_eq!(session.shutdown_outcome(), Some(true));
    assert_eq!(session.stage(), Stage::Closing);
    assert_eq!(session.pending(), Action::Close);

    performed.push(session.advance(Event::Closed, 403));
    assert_eq!(session.stage(), Stage::Done);
    assert_eq!(session.pending(), Action::Finish);
    assert_eq!(session.error(), None);

    assert_eq!(
        performed,
        vec![
            Action::Connect(Attempt { wake: false, wait_secs: 0 }),
            Action::Connect(Attempt { wake: false, wait_secs: 3 }),
            Action::Connect(Attempt { wake: true, wait_secs: 63 }),
            Action::ApplyUpdates,
            Action::Sample { wait_secs: 0 },
            Action::Sample { wait_secs: 1 },
            Action::Sample { wait_secs: 1 },
            Action::Sample { wait_secs: 1 },
            Action::Shutdown,
            Action::Close,
            Action::Finish,
        ]
    );
}

#[test]
fn running_machine_is_neither_monitored_nor_shut_down() {
    let mut session = UpdateSession::new(profile(Some("AA:BB:CC:DD:EE:FF"), true, true, 5));
    assert_eq!(session.advance(Event::Attempted { connected: true }, 0), Action::ApplyUpdates);
    assert!(!session.did_wake());
    assert_eq!(session.advance(Event::CommandExited { success: true }, 9), Action::Close);
    assert_eq!(session.stage(), Stage::Closing);
    assert_eq!(session.advance(Event::Closed, 9), Action::Finish);
    assert_eq!(session.stage(), Stage::Done);
    assert_eq!(session.shutdown_outcome(), None);
}

#[test]
fn one_failure_does_not_count_as_wake() {
    let mut session = UpdateSession::new(profile(Some("AA:BB:CC:DD:EE:FF"), false, true, 5));
    session.advance(Event::Attempted { connected: false }, 0);
    assert_eq!(session.advance(Event::Attempted { connected: true }, 3), Action::Close);
    assert!(!session.did_wake());
}

#[test]
fn no_flags_goes_straight_to_close() {
    let mut session = UpdateSession::new(profile(None, false, false, 5));
    assert_eq!(session.advance(Event::Attempted { connected: true }, 0), Action::Close);
    assert_eq!(session.update_outcome(), None);
    assert_eq!(session.advance(Event::Closed, 0), Action::Finish);
    assert_eq!(session.stage(), Stage::Done);
}

#[test]
fn woken_machine_without_monitoring_is_shut_down() {
    let mut session = UpdateSession::new(profile(Some("AA:BB:CC:DD:EE:FF"), false, false, 5));
    session.advance(Event::Attempted { connected: false }, 0);
    session.advance(Event::Attempted { connected: false }, 3);
    assert_eq!(session.advance(Event::Attempted { connected: true }, 66), Action::Shutdown);
    assert_eq!(session.stage(), Stage::Monitoring);
    assert_eq!(session.advance(Event::CommandExited { success: false }, 67), Action::Close);
    assert_eq!(session.shutdown_outcome(), Some(false));
    assert_eq!(session.advance(Event::Closed, 68), Action::Finish);
    assert_eq!(session.stage(), Stage::Done);
    assert_eq!(session.error(), None);
}

#[test]
fn missing_wake_address_fails_the_run() {
    let mut session = UpdateSession::new(profile(None, true, true, 5));
    assert_eq!(
        session.advance(Event::Attempted { connected: false }, 0),
        Action::Connect(Attempt { wake: false, wait_secs: 3 })
    );
    assert_eq!(session.advance(Event::Attempted { connected: false }, 3), Action::Finish);
    assert_eq!(session.stage(), Stage::Failed);
    assert_eq!(session.error(), Some(SessionError::Connect(ConnectFailure::NoWakeAddress)));
    assert_eq!(session.advance(Event::Attempted { connected: true }, 4), Action::Finish);
    assert_eq!(session.stage(), Stage::Failed);
    assert_eq!(session.advance(Event::Closed, 4), Action::Finish);
    assert_eq!(session.stage(), Stage::Failed);
}

#[test]
fn six_failures_exhaust_the_run() {
    let mut session = UpdateSession::new(profile(Some("AA:BB:CC:DD:EE:FF"), true, true, 5));
    let mut wakes = 0;
    let mut attempts = 0;
    loop {
        match session.pending() {
            Action::Connect(attempt) => {
                attempts += 1;
                if attempt.wake {
                    wakes += 1;
                }
                session.advance(Event::Attempted { connected: false }, attempts);
            }
            other => {
                assert_eq!(other, Action::Finish);
                break;
            }
        }
    }
    assert_eq!(attempts, 6);
    assert_eq!(wakes, 1);
    assert_eq!(session.stage(), Stage::Failed);
    assert_eq!(session.error(), Some(SessionError::Connect(ConnectFailure::Exhausted)));
}

#[test]
fn failed_update_does_not_end_the_run() {
    let mut session = UpdateSession::new(profile(None, true, false, 5));
    session.advance(Event::Attempted { connected: true }, 0);
    assert_eq!(session.advance(Event::CommandExited { success: false }, 1), Action::Close);
    assert_eq!(session.update_outcome(), Some(UpdateOutcome::Failed));
    assert_eq!(session.error(), None);
    assert_eq!(session.advance(Event::Closed, 2), Action::Finish);
    assert_eq!(session.stage(), Stage::Done);
}

#[test]
fn update_twice_on_an_updated_machine_succeeds_twice() {
    for _ in 0..2 {
        let mut session = UpdateSession::new(profile(None, true, false, 5));
        session.advance(Event::Attempted { connected: true }, 0);
        session.advance(Event::CommandExited { success: true }, 1);
        assert_eq!(session.update_outcome(), Some(UpdateOutcome::Applied));
        assert_eq!(session.error(), None);
        assert_eq!(session.advance(Event::Closed, 2), Action::Finish);
    }
    assert_eq!(UpdateOutcome::from_exit(true), UpdateOutcome::Applied);
    assert_eq!(UpdateOutcome::from_exit(false), UpdateOutcome::Failed);
    assert!(UpdateOutcome::from_exit(true).is_applied());
    assert!(!UpdateOutcome::from_exit(false).is_applied());
}

#[test]
fn unreadable_sample_ends_the_run_without_shutdown() {
    let mut session = UpdateSession::new(profile(Some("AA:BB:CC:DD:EE:FF"), false, true, 5));
    session.advance(Event::Attempted { connected: false }, 0);
    session.advance(Event::Attempted { connected: false }, 3);
    assert_eq!(
        session.advance(Event::Attempted { connected: true }, 66),
        Action::Sample { wait_secs: 0 }
    );
    assert_eq!(session.advance(sampled("\n"), 66), Action::Close);
    assert_eq!(session.error(), Some(SessionError::Sample(SampleParseFailure)));
    assert_eq!(session.advance(Event::Closed, 66), Action::Finish);
    assert_eq!(session.stage(), Stage::Done);
    assert_eq!(session.shutdown_outcome(), None);
}

#[test]
fn monitoring_starts_its_clock_when_maintenance_ends() {
    let mut session = UpdateSession::new(profile(Some("AA:BB:CC:DD:EE:FF"), true, true, 1));
    session.advance(Event::Attempted { connected: false }, 0);
    session.advance(Event::Attempted { connected: false }, 3);
    session.advance(Event::Attempted { connected: true }, 66);
    session.advance(Event::CommandExited { success: true }, 1000);
    assert_eq!(session.advance(sampled("0"), 1060), Action::Sample { wait_secs: 1 });
    assert_eq!(session.advance(sampled("0"), 1061), Action::Shutdown);
}

#[test]
fn busy_machine_keeps_the_session_monitoring() {
    let mut session = UpdateSession::new(profile(Some("AA:BB:CC:DD:EE:FF"), false, true, 1));
    session.advance(Event::Attempted { connected: false }, 0);
    session.advance(Event::Attempted { connected: false }, 3);
    session.advance(Event::Attempted { connected: true }, 66);
    for second in 66..20_000u64 {
        assert_eq!(session.advance(sampled("251"), second), Action::Sample { wait_secs: 1 });
    }
    assert_eq!(session.stage(), Stage::Maintaining);
}

#[test]
fn unexpected_report_changes_nothing() {
    let mut session = UpdateSession::new(profile(Some("AA:BB:CC:DD:EE:FF"), true, true, 5));
    let first = session.pending();
    assert_eq!(session.advance(Event::Closed, 0), first);
    assert_eq!(session.advance(Event::CommandExited { success: true }, 0), first);
    assert_eq!(session.advance(sampled("1"), 0), first);
    assert_eq!(session.stage(), Stage::Connecting);
    session.advance(Event::Attempted { connected: true }, 0);
    assert_eq!(session.advance(Event::Attempted { connected: false }, 0), Action::ApplyUpdates);
    assert_eq!(session.advance(Event::Closed, 0), Action::ApplyUpdates);
    assert_eq!(session.stage(), Stage::Connected);
}

#[test]
fn close_is_asked_for_once_per_connected_run() {
    let flags = [false, true];
    for &flatpak in &flags {
        for &steam in &flags {
            for failures in 0..6u32 {
                let mut session =
                    UpdateSession::new(profile(Some("AA:BB:CC:DD:EE:FF"), flatpak, steam, 1));
                let mut closes = 0;
                let mut shutdowns = 0;
                let mut samples = 0;
                let mut failed = 0;
                let mut now = 0u64;
                let mut action = session.pending();
                while action != Action::Finish {
                    now += 100;
                    let event = match action {
                        Action::Connect(_) => {
                            failed += 1;
                            Event::Attempted { connected: failed > failures }
                        }
                        Action::ApplyUpdates => Event::CommandExited { success: true },
                        Action::Sample { .. } => {
                            samples += 1;
                            sampled("0")
                        }
                        Action::Shutdown => {
                            shutdowns += 1;
                            Event::CommandExited { success: true }
                        }
                        Action::Close => {
                            closes += 1;
                            Event::Closed
                        }
                        Action::Finish => unreachable!(),
                    };
                    action = session.advance(event, now);
                }
                assert_eq!(session.stage(), Stage::Done);
                assert_eq!(closes, 1);
                let woke = failures >= 2;
                assert_eq!(session.did_wake(), woke);
                assert_eq!(shutdowns, if woke { 1 } else { 0 });
                assert_eq!(samples > 0, woke && steam);
                assert_eq!(session.update_outcome().is_some(), flatpak);
            }
        }
    }
}

#[test]
fn failed_run_never_asks_for_close() {
    let mut session = UpdateSession::new(profile(None, true, true, 1));
    let mut asked = vec![session.pending()];
    asked.push(session.advance(Event::Attempted { connected: false }, 0));
    asked.push(session.advance(Event::Attempted { connected: false }, 0));
    asked.push(session.advance(Event::Attempted { connected: false }, 0));
    assert!(!asked.contains(&Action::Close));
    assert!(!asked.contains(&Action::Shutdown));
    assert_eq!(session.stage(), Stage::Failed);
}

#[test]
fn commands_of_the_actions() {
    assert_eq!(Action::ApplyUpdates.command(), Some("sudo flatpak update -y"));
    assert_eq!(
        Action::Sample { wait_secs: 1 }.command(),
        Some("netstat -tunap | grep steam | awk '{sum1+=$2; sum2+=$3} END {print sum1 + sum2}'")
    );
    assert_eq!(Action::Shutdown.command(), Some("sudo shutdown now"));
    assert_eq!(Action::Close.command(), None);
    assert_eq!(Action::Finish.command(), None);
    assert_eq!(Action::Connect(Attempt { wake: true, wait_secs: 63 }).command(), None);
}

#[test]
fn session_keeps_its_machine() {
    let session = UpdateSession::new(profile(Some("AA:BB:CC:DD:EE:FF"), true, false, 8));
    assert_eq!(session.machine().ssh(), "h1");
    assert_eq!(session.machine().mac(), Some("AA:BB:CC:DD:EE:FF"));
    assert_eq!(session.machine().steam_delay(), 8);
    assert!(session.machine().flatpak());
    assert!(!session.machine().steam());
}

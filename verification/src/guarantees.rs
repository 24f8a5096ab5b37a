//! What holds of every run of a session, whatever the machine answers.
//!
//! A run is a session and the reports that the caller makes to it, in
//! order. The caller does the pending action before each report, so the
//! actions of a run are the pending actions of the sessions that it passes
//! through.

use vstd::prelude::*;
use crate::config::MachineView;
use crate::connect::{lemma_ended_stays, phase_after, ConnectFailure, ConnectPhase};
use crate::maintenance::UpdateOutcome;
use crate::session::{Action, Event, SessionView, Stage};

verus! {

/// The kinds of work that a caller does for a session.
pub enum Work {
    Connect,
    Wake,
    ApplyUpdates,
    Sample,
    Shutdown,
    Close,
}

/// Whether `action` is work of the kind `work`.
pub open spec fn is_work(action: Action, work: Work) -> bool {
    match work {
        Work::Connect => action is Connect,
        Work::Wake => action matches Action::Connect(attempt) && attempt.wake,
        Work::ApplyUpdates => action is ApplyUpdates,
        Work::Sample => action is Sample,
        Work::Shutdown => action is Shutdown,
        Work::Close => action is Close,
    }
}

/// The session after the reports, each given with the time at which it was
/// made.
pub open spec fn run(session: SessionView, reports: Seq<(Event, u64)>) -> SessionView
    decreases reports.len(),
{
    if reports.len() == 0 {
        session
    } else {
        run(session.step(reports[0].0, reports[0].1), reports.drop_first())
    }
}

/// Whether each report is on the action that was pending when it was made.
pub open spec fn well_answered(session: SessionView, reports: Seq<(Event, u64)>) -> bool
    decreases reports.len(),
{
    reports.len() == 0 || (session.pending().answered_by(reports[0].0) && well_answered(
        session.step(reports[0].0, reports[0].1),
        reports.drop_first(),
    ))
}

/// How often the caller does work of the kind `work` in a run.
pub open spec fn times(session: SessionView, reports: Seq<(Event, u64)>, work: Work) -> nat
    decreases reports.len(),
{
    if reports.len() == 0 {
        0
    } else {
        let now: nat = if is_work(session.pending(), work) {
            1
        } else {
            0
        };
        now + times(session.step(reports[0].0, reports[0].1), reports.drop_first(), work)
    }
}

/// 1 where the connection has been released, else 0.
pub open spec fn released(session: SessionView) -> nat {
    if session.stage == Stage::Done {
        1
    } else {
        0
    }
}

/// 1 where the shutdown command has run, else 0.
pub open spec fn shut_down(session: SessionView) -> nat {
    if session.shutdown is Some {
        1
    } else {
        0
    }
}

/// 1 where the wake signal has been broadcast, else 0.
pub open spec fn woken(session: SessionView) -> nat {
    if session.connect == ConnectPhase::Failed(ConnectFailure::Exhausted) || (
    session.connect.woke() && session.connect != ConnectPhase::WokeWaiting) {
        1
    } else {
        0
    }
}

/// 1 where the update command has run, else 0.
pub open spec fn updated(session: SessionView) -> nat {
    if session.update is Some {
        1
    } else {
        0
    }
}

/// The stages of a run follow one another in the order
/// `Connecting`, `Connected`, `Maintaining`, `Monitoring`, `Closing`, and
/// then `Done`, with `Failed` after `Connecting` only: no step leads back,
/// and the profile stays as it is.
pub proof fn law_stages_in_order(session: SessionView, reports: Seq<(Event, u64)>)
    requires
        session.wf(),
    ensures
        run(session, reports).wf(),
        run(session, reports).profile == session.profile,
        session.stage.rank() <= run(session, reports).stage.rank(),
        run(session, reports).stage == Stage::Failed ==> session.stage == Stage::Connecting
            || session.stage == Stage::Failed,
    decreases reports.len(),
{
    if reports.len() > 0 {
        law_stages_in_order(session.step(reports[0].0, reports[0].1), reports.drop_first());
    }
}

/// Whether the run woke the machine is settled when the establishment ends
/// and never changes after it.
pub proof fn law_wake_flag_is_settled(session: SessionView, reports: Seq<(Event, u64)>)
    requires
        session.wf(),
        session.stage != Stage::Connecting,
    ensures
        run(session, reports).connect == session.connect,
        run(session, reports).did_wake() == session.did_wake(),
    decreases reports.len(),
{
    if reports.len() > 0 {
        law_wake_flag_is_settled(session.step(reports[0].0, reports[0].1), reports.drop_first());
    }
}

/// The results of the connection attempts that `reports` tell of, in order.
pub open spec fn attempt_results(reports: Seq<(Event, u64)>) -> Seq<bool> {
    Seq::new(
        reports.len(),
        |i: int| reports[i].0 matches Event::Attempted { connected } && connected,
    )
}

/// While attempts are reported, a session is as far in its establishment
/// as the retry object is after the same results.
pub proof fn lemma_session_follows_attempts(session: SessionView, reports: Seq<(Event, u64)>)
    requires
        session.wf(),
        forall|i: int| 0 <= i < reports.len() ==> (#[trigger] reports[i]).0 is Attempted,
    ensures
        run(session, reports).connect == phase_after(
            session.connect,
            attempt_results(reports),
            session.profile.mac is Some,
        ),
    decreases reports.len(),
{
    let results = attempt_results(reports);
    if reports.len() > 0 {
        let next = session.step(reports[0].0, reports[0].1);
        let rest = reports.drop_first();
        assert(attempt_results(rest) =~= results.drop_first());
        assert forall|i: int| 0 <= i < rest.len() implies (#[trigger] rest[i]).0 is Attempted by {
            assert(rest[i] == reports[i + 1]);
        }
        assert(reports[0].0 is Attempted);
        if session.stage == Stage::Connecting {
            lemma_session_follows_attempts(next, rest);
        } else {
            law_wake_flag_is_settled(session, reports);
            lemma_ended_stays(session.connect, results, session.profile.mac is Some);
        }
    }
}

/// The establishment of a session is that of the retry object: after any
/// reports of attempts, the session has connected, failed or is still
/// trying as `phase_after` says of the attempts' results, and it has left
/// `Connecting` exactly where that phase has ended.
pub proof fn law_session_establishes_as_retry_object(
    profile: MachineView,
    reports: Seq<(Event, u64)>,
)
    requires
        forall|i: int| 0 <= i < reports.len() ==> (#[trigger] reports[i]).0 is Attempted,
    ensures
        run(SessionView::initial(profile), reports).connect == phase_after(
            ConnectPhase::NotStarted,
            attempt_results(reports),
            profile.mac is Some,
        ),
        run(SessionView::initial(profile), reports).stage == Stage::Connecting <==> !phase_after(
            ConnectPhase::NotStarted,
            attempt_results(reports),
            profile.mac is Some,
        ).is_terminal(),
        run(SessionView::initial(profile), reports).stage == Stage::Failed <==> phase_after(
            ConnectPhase::NotStarted,
            attempt_results(reports),
            profile.mac is Some,
        ) is Failed,
{
    let start = SessionView::initial(profile);
    lemma_session_follows_attempts(start, reports);
    law_stages_in_order(start, reports);
}

/// Every sample and every shutdown of a run belongs to a session that woke
/// the machine.
pub proof fn lemma_monitoring_needs_wake(session: SessionView, reports: Seq<(Event, u64)>)
    requires
        session.wf(),
        times(session, reports, Work::Sample) > 0 || times(session, reports, Work::Shutdown) > 0,
    ensures
        run(session, reports).connect == (ConnectPhase::Connected { did_wake: true }),
    decreases reports.len(),
{
    if reports.len() > 0 {
        let next = session.step(reports[0].0, reports[0].1);
        let rest = reports.drop_first();
        if session.pending() is Sample || session.pending() is Shutdown {
            law_wake_flag_is_settled(session, reports);
        } else {
            lemma_monitoring_needs_wake(next, rest);
        }
    }
}

/// Where a run did not wake the machine, it neither samples the activity
/// nor shuts the machine down, whatever the profile asks for.
pub proof fn law_no_wake_no_monitoring_no_shutdown(
    profile: MachineView,
    reports: Seq<(Event, u64)>,
)
    requires
        !run(SessionView::initial(profile), reports).did_wake(),
    ensures
        times(SessionView::initial(profile), reports, Work::Sample) == 0,
        times(SessionView::initial(profile), reports, Work::Shutdown) == 0,
{
    let start = SessionView::initial(profile);
    if times(start, reports, Work::Sample) > 0 || times(start, reports, Work::Shutdown) > 0 {
        lemma_monitoring_needs_wake(start, reports);
    }
}

/// What a run does once: the connection is closed on the step that leads
/// to `Done` and on no other, the shutdown command runs on the step that
/// records its result, and the update command on the step that records its
/// outcome.
pub proof fn lemma_work_is_counted(session: SessionView, reports: Seq<(Event, u64)>)
    requires
        session.wf(),
        well_answered(session, reports),
    ensures
        times(session, reports, Work::Close) + released(session) == released(
            run(session, reports),
        ),
        times(session, reports, Work::Shutdown) + shut_down(session) == shut_down(
            run(session, reports),
        ),
        times(session, reports, Work::ApplyUpdates) + updated(session) == updated(
            run(session, reports),
        ),
        times(session, reports, Work::Wake) + woken(session) == woken(run(session, reports)),
    decreases reports.len(),
{
    if reports.len() > 0 {
        let next = session.step(reports[0].0, reports[0].1);
        crate::session::lemma_step_keeps_wf(session, reports[0].0, reports[0].1);
        lemma_work_is_counted(next, reports.drop_first());
    }
}

/// The wake signal is broadcast at most once in a run, and only where a
/// hardware address is configured. A session that is connected woke the
/// machine exactly where the signal was broadcast.
pub proof fn law_wake_broadcast_once(profile: MachineView, reports: Seq<(Event, u64)>)
    requires
        well_answered(SessionView::initial(profile), reports),
    ensures
        times(SessionView::initial(profile), reports, Work::Wake) <= 1,
        profile.mac is None ==> times(SessionView::initial(profile), reports, Work::Wake) == 0,
        run(SessionView::initial(profile), reports).connect is Connected ==> (times(
            SessionView::initial(profile),
            reports,
            Work::Wake,
        ) == 1 <==> run(SessionView::initial(profile), reports).did_wake()),
{
    let start = SessionView::initial(profile);
    law_stages_in_order(start, reports);
    lemma_work_is_counted(start, reports);
}

/// A run that has ended has closed its connection exactly once if it ever
/// had one, and never if it had none: it ends in `Done` exactly where a
/// connection came about, and in `Failed` where none did.
pub proof fn law_connection_released_once(profile: MachineView, reports: Seq<(Event, u64)>)
    requires
        well_answered(SessionView::initial(profile), reports),
    ensures
        times(SessionView::initial(profile), reports, Work::Close) <= 1,
        run(SessionView::initial(profile), reports).stage == Stage::Done ==> run(
            SessionView::initial(profile),
            reports,
        ).connect is Connected && times(SessionView::initial(profile), reports, Work::Close) == 1,
        run(SessionView::initial(profile), reports).stage == Stage::Failed ==> run(
            SessionView::initial(profile),
            reports,
        ).connect is Failed && times(SessionView::initial(profile), reports, Work::Close) == 0,
        run(SessionView::initial(profile), reports).stage.is_terminal() ==> !run(
            SessionView::initial(profile),
            reports,
        ).holds_connection(),
{
    let start = SessionView::initial(profile);
    law_stages_in_order(start, reports);
    lemma_work_is_counted(start, reports);
}

/// A run that has released its connection has shut the machine down
/// exactly once if it woke the machine and read every sample, and never
/// otherwise. A run without a connection shuts nothing down.
pub proof fn law_shutdown_once_if_woken(profile: MachineView, reports: Seq<(Event, u64)>)
    requires
        well_answered(SessionView::initial(profile), reports),
    ensures
        times(SessionView::initial(profile), reports, Work::Shutdown) <= 1,
        run(SessionView::initial(profile), reports).stage == Stage::Done ==> (times(
            SessionView::initial(profile),
            reports,
            Work::Shutdown,
        ) == 1 <==> run(SessionView::initial(profile), reports).did_wake() && run(
            SessionView::initial(profile),
            reports,
        ).error is None),
        run(SessionView::initial(profile), reports).stage == Stage::Failed ==> times(
            SessionView::initial(profile),
            reports,
            Work::Shutdown,
        ) == 0,
{
    let start = SessionView::initial(profile);
    law_stages_in_order(start, reports);
    lemma_work_is_counted(start, reports);
}

/// A run that has got past maintenance has run the update command exactly
/// once if the profile asks for updates, and never otherwise.
pub proof fn law_updates_once_if_enabled(profile: MachineView, reports: Seq<(Event, u64)>)
    requires
        well_answered(SessionView::initial(profile), reports),
    ensures
        times(SessionView::initial(profile), reports, Work::ApplyUpdates) <= 1,
        !profile.flatpak ==> times(SessionView::initial(profile), reports, Work::ApplyUpdates)
            == 0,
        run(SessionView::initial(profile), reports).stage.rank() > Stage::Connected.rank() && run(
            SessionView::initial(profile),
            reports,
        ).stage != Stage::Failed && profile.flatpak ==> times(
            SessionView::initial(profile),
            reports,
            Work::ApplyUpdates,
        ) == 1,
{
    let start = SessionView::initial(profile);
    law_stages_in_order(start, reports);
    lemma_work_is_counted(start, reports);
}

/// A failed update does not end the run: but for the recorded outcome, the
/// session goes on as after a successful one.
pub proof fn law_update_failure_is_not_fatal(session: SessionView, now: u64)
    requires
        session.stage == Stage::Connected,
    ensures
        session.step(Event::CommandExited { success: false }, now) == (SessionView {
            update: Some(UpdateOutcome::Failed),
            ..session.step(Event::CommandExited { success: true }, now)
        }),
        session.step(Event::CommandExited { success: false }, now).error == session.error,
{
}

/// The update command can be run again with the same result: two sessions
/// whose update command exits with success both record `Applied`, and each
/// goes on as if the other had not run.
pub proof fn law_update_twice_applies_twice(
    first: SessionView,
    second: SessionView,
    now: u64,
    later: u64,
)
    requires
        first.stage == Stage::Connected,
        second.stage == Stage::Connected,
    ensures
        first.step(Event::CommandExited { success: true }, now).update == Some(
            UpdateOutcome::Applied,
        ),
        second.step(Event::CommandExited { success: true }, later).update == Some(
            UpdateOutcome::Applied,
        ),
        first.step(Event::CommandExited { success: true }, now).error == first.error,
        second.step(Event::CommandExited { success: true }, later).error == second.error,
{
}

} // verus!

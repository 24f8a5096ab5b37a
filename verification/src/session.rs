//! One session against one machine: connect, maintain, monitor, shut down,
//! close.
//!
//! The session is a state machine. The caller does what `pending` names
//! (connects, runs a command, closes), then reports what came of it to
//! `advance`, which moves the session on and names the next thing to do.
//! Nothing here waits or talks to a machine.

use vstd::prelude::*;
use crate::config::{Machine, MachineView};
use crate::connect::{Attempt, ConnectFailure, ConnectPhase};
use crate::maintenance::UpdateOutcome;
use crate::monitor::{ActivityMonitor, UsageSample, Verdict, POLL_SECS};
use crate::sample::{parse_sample, sample_reading, SampleParseFailure};

verus! {

/// Where a session stands. A session in a stage is doing, or about to do,
/// the work that leads out of it.
#[derive(Debug, Clone, Copy, PartialEq, Eq, Structural)]
pub enum Stage {
    /// Establishing the connection.
    Connecting,
    /// Connected; applying the updates.
    Connected,
    /// Maintenance is over; watching the activity.
    Maintaining,
    /// Monitoring is over; shutting the machine down.
    Monitoring,
    /// Releasing the connection.
    Closing,
    /// The connection is released: the run has ended.
    Done,
    /// No connection came about: the run has ended.
    Failed,
}

/// An error that ends a run.
#[derive(Debug, Clone, Copy, PartialEq, Eq, Structural)]
pub enum SessionError {
    /// No connection came about.
    Connect(ConnectFailure),
    /// A sample could not be read: the activity is unknown.
    Sample(SampleParseFailure),
}

/// What the caller is to do next.
#[derive(Debug, Clone, Copy, PartialEq, Eq, Structural)]
pub enum Action {
    /// Wake and wait as the attempt says, then try to connect.
    Connect(Attempt),
    /// Run the update command.
    ApplyUpdates,
    /// Wait `wait_secs`, then run the sampling command.
    Sample { wait_secs: u64 },
    /// Run the shutdown command.
    Shutdown,
    /// Close the connection.
    Close,
    /// Nothing: the run has ended.
    Finish,
}

/// What came of the action that was pending.
#[derive(Debug)]
pub enum Event {
    /// The connection attempt was made.
    Attempted { connected: bool },
    /// The update or the shutdown command ran.
    CommandExited { success: bool },
    /// The sampling command printed `stdout`.
    Sampled { stdout: Vec<u8> },
    /// The connection was closed, with or without an error.
    Closed,
}

impl Stage {
    /// The position of a stage in the order of a run.
    pub open spec fn rank(self) -> nat {
        match self {
            Stage::Connecting => 0,
            Stage::Connected => 1,
            Stage::Maintaining => 2,
            Stage::Monitoring => 3,
            Stage::Closing => 4,
            Stage::Done => 5,
            Stage::Failed => 5,
        }
    }

    /// Whether a run has ended in this stage.
    pub open spec fn is_terminal(self) -> bool {
        self == Stage::Done || self == Stage::Failed
    }
}

impl Action {
    /// Whether `event` reports on this action.
    pub open spec fn answered_by(self, event: Event) -> bool {
        match self {
            Action::Connect(_) => event is Attempted,
            Action::ApplyUpdates => event is CommandExited,
            Action::Sample { .. } => event is Sampled,
            Action::Shutdown => event is CommandExited,
            Action::Close => event is Closed,
            Action::Finish => false,
        }
    }

    /// The shell command that the action runs on the machine, if it runs
    /// one.
    pub fn command(self) -> (text: Option<&'static str>)
        ensures
            match self {
                Action::ApplyUpdates => text matches Some(t) && t@ == "sudo flatpak update -y"@,
                Action::Sample { .. } => text matches Some(t) && t@
                    == "netstat -tunap | grep steam | awk '{sum1+=$2; sum2+=$3} END {print sum1 + sum2}'"@,
                Action::Shutdown => text matches Some(t) && t@ == "sudo shutdown now"@,
                _ => text is None,
            },
    {
        match self {
            Action::ApplyUpdates => Some("sudo flatpak update -y"),
            Action::Sample { .. } => Some(
                "netstat -tunap | grep steam | awk '{sum1+=$2; sum2+=$3} END {print sum1 + sum2}'",
            ),
            Action::Shutdown => Some("sudo shutdown now"),
            _ => None,
        }
    }
}

/// A session as mathematical values.
pub ghost struct SessionView {
    /// The machine's settings.
    pub profile: MachineView,
    /// Where the session stands.
    pub stage: Stage,
    /// Where the establishment stands, or how it ended.
    pub connect: ConnectPhase,
    /// The monitor's memory, while the session watches the activity.
    pub monitor: ActivityMonitor,
    /// Whether a sample has been taken.
    pub polled: bool,
    /// The error that ended the run, if one did.
    pub error: Option<SessionError>,
    /// How the update command ended, once it has run.
    pub update: Option<UpdateOutcome>,
    /// Whether the shutdown command succeeded, once it has run.
    pub shutdown: Option<bool>,
}

impl SessionView {
    /// The session at the start of a run.
    pub open spec fn initial(profile: MachineView) -> SessionView {
        SessionView {
            profile,
            stage: Stage::Connecting,
            connect: ConnectPhase::NotStarted,
            monitor: ActivityMonitor { last_active: 0, idle_minutes: profile.steam_delay },
            polled: false,
            error: None,
            update: None,
            shutdown: None,
        }
    }

    /// Whether this run woke the machine.
    pub open spec fn did_wake(self) -> bool {
        self.connect.woke()
    }

    /// Whether the session holds a connection that it has not released.
    pub open spec fn holds_connection(self) -> bool {
        self.connect is Connected && self.stage != Stage::Done
    }

    /// What holds of every session that a run passes through.
    pub open spec fn wf(self) -> bool {
        &&& self.connect.reachable()
        &&& self.stage == Stage::Connecting <==> !self.connect.is_terminal()
        &&& self.stage == Stage::Failed <==> self.connect is Failed
        &&& self.connect.failures() >= 2 ==> self.profile.mac is Some
        &&& self.connect.woke() ==> self.profile.mac is Some
        &&& self.connect == ConnectPhase::Failed(ConnectFailure::Exhausted)
            ==> self.profile.mac is Some
        &&& self.connect == ConnectPhase::Failed(ConnectFailure::NoWakeAddress)
            ==> self.profile.mac is None
        &&& self.stage == Stage::Connected ==> self.profile.flatpak
        &&& self.stage == Stage::Maintaining ==> self.profile.steam && self.did_wake()
            && self.monitor.idle_minutes == self.profile.steam_delay
        &&& self.stage == Stage::Monitoring ==> self.did_wake()
        &&& self.error is Some <==> self.stage == Stage::Failed || (self.error == Some(
            SessionError::Sample(SampleParseFailure),
        ) && self.stage.rank() >= Stage::Closing.rank() && self.shutdown is None)
        &&& self.stage == Stage::Failed ==> self.error == Some(
            SessionError::Connect(self.connect->Failed_0),
        )
        &&& self.update is Some ==> self.profile.flatpak && self.stage.rank()
            > Stage::Connected.rank() && self.stage != Stage::Failed
        &&& self.shutdown is Some ==> self.did_wake() && self.stage.rank() >= Stage::Closing.rank()
            && self.stage != Stage::Failed
        &&& self.stage.rank() > Stage::Connected.rank() && self.stage != Stage::Failed ==> (
        self.update is Some <==> self.profile.flatpak)
        &&& self.stage.rank() >= Stage::Closing.rank() && self.stage != Stage::Failed ==> (
        self.shutdown is Some <==> self.did_wake() && self.error is None)
    }

    /// What the caller is to do next.
    pub open spec fn pending(self) -> Action {
        match self.stage {
            Stage::Connecting => match self.connect.spec_pending() {
                Some(attempt) => Action::Connect(attempt),
                None => Action::Finish,
            },
            Stage::Connected => Action::ApplyUpdates,
            Stage::Maintaining => Action::Sample {
                wait_secs: if self.polled {
                    POLL_SECS
                } else {
                    0
                },
            },
            Stage::Monitoring => Action::Shutdown,
            Stage::Closing => Action::Close,
            Stage::Done => Action::Finish,
            Stage::Failed => Action::Finish,
        }
    }

    /// Monitoring is over or was skipped: the machine is shut down if this
    /// run woke it, else the connection is closed.
    pub open spec fn to_shutdown(self) -> SessionView {
        if self.did_wake() {
            SessionView { stage: Stage::Monitoring, ..self }
        } else {
            SessionView { stage: Stage::Closing, ..self }
        }
    }

    /// Maintenance is over or was skipped: the activity is watched from
    /// `now` on if the profile asks for it and this run woke the machine.
    pub open spec fn to_monitoring(self, now: u64) -> SessionView {
        if self.profile.steam && self.did_wake() {
            SessionView {
                stage: Stage::Maintaining,
                monitor: ActivityMonitor {
                    last_active: now,
                    idle_minutes: self.profile.steam_delay,
                },
                polled: false,
                ..self
            }
        } else {
            self.to_shutdown()
        }
    }

    /// The connection stands: the updates are applied if the profile asks
    /// for them.
    pub open spec fn to_maintenance(self, now: u64) -> SessionView {
        if self.profile.flatpak {
            SessionView { stage: Stage::Connected, ..self }
        } else {
            self.to_monitoring(now)
        }
    }

    /// The session after a connection attempt.
    pub open spec fn after_attempt(self, connected: bool, now: u64) -> SessionView {
        let connect = self.connect.spec_record(connected, self.profile.mac is Some);
        let recorded = SessionView { connect, ..self };
        match connect {
            ConnectPhase::Connected { .. } => recorded.to_maintenance(now),
            ConnectPhase::Failed(failure) => SessionView {
                stage: Stage::Failed,
                error: Some(SessionError::Connect(failure)),
                ..recorded
            },
            _ => recorded,
        }
    }

    /// The session after a sample: an unreadable one ends the run without a
    /// shutdown, an idle one ends the monitoring, any other is followed by
    /// the next.
    pub open spec fn after_sample(self, stdout: Seq<u8>, now: u64) -> SessionView {
        match sample_reading(stdout) {
            None => SessionView {
                stage: Stage::Closing,
                polled: true,
                error: Some(SessionError::Sample(SampleParseFailure)),
                ..self
            },
            Some(magnitude) => {
                let sample = UsageSample { at: now, magnitude };
                let watched = SessionView {
                    monitor: self.monitor.after(sample),
                    polled: true,
                    ..self
                };
                if self.monitor.verdict(sample) is Idle {
                    watched.to_shutdown()
                } else {
                    watched
                }
            },
        }
    }

    /// The session after `event`, reported at time `now`. An event that
    /// does not report on the pending action changes nothing.
    pub open spec fn step(self, event: Event, now: u64) -> SessionView {
        if !self.pending().answered_by(event) {
            self
        } else {
            match event {
                Event::Attempted { connected } => self.after_attempt(connected, now),
                Event::CommandExited { success } => if self.stage == Stage::Connected {
                    SessionView { update: Some(UpdateOutcome::of(success)), ..self }.to_monitoring(
                        now,
                    )
                } else {
                    SessionView { stage: Stage::Closing, shutdown: Some(success), ..self }
                },
                Event::Sampled { stdout } => self.after_sample(stdout@, now),
                Event::Closed => SessionView { stage: Stage::Done, ..self },
            }
        }
    }
}

/// One run against one machine.
#[derive(Debug)]
pub struct UpdateSession {
    machine: Machine,
    stage: Stage,
    connect: ConnectPhase,
    monitor: ActivityMonitor,
    polled: bool,
    error: Option<SessionError>,
    update: Option<UpdateOutcome>,
    shutdown: Option<bool>,
}

impl View for UpdateSession {
    type V = SessionView;

    closed spec fn view(&self) -> SessionView {
        SessionView {
            profile: self.machine@,
            stage: self.stage,
            connect: self.connect,
            monitor: self.monitor,
            polled: self.polled,
            error: self.error,
            update: self.update,
            shutdown: self.shutdown,
        }
    }
}

impl UpdateSession {
    /// Begins a run against `machine`: nothing has been attempted.
    pub fn new(machine: Machine) -> (session: Self)
        ensures
            session@ == SessionView::initial(machine@),
            session@.wf(),
    {
        let idle_minutes = machine.steam_delay();
        UpdateSession {
            machine,
            stage: Stage::Connecting,
            connect: ConnectPhase::NotStarted,
            monitor: ActivityMonitor { last_active: 0, idle_minutes },
            polled: false,
            error: None,
            update: None,
            shutdown: None,
        }
    }

    /// The machine that the run is against.
    pub fn machine(&self) -> (machine: &Machine)
        ensures
            machine@ == self@.profile,
    {
        &self.machine
    }

    /// Where the session stands.
    pub fn stage(&self) -> (stage: Stage)
        ensures
            stage == self@.stage,
    {
        self.stage
    }

    /// Whether this run woke the machine.
    pub fn did_wake(&self) -> (woke: bool)
        ensures
            woke == self@.did_wake(),
    {
        self.connect.did_wake()
    }

    /// The error that ended the run, if one did.
    pub fn error(&self) -> (error: Option<SessionError>)
        ensures
            error == self@.error,
    {
        self.error
    }

    /// How the update command ended, once it has run.
    pub fn update_outcome(&self) -> (outcome: Option<UpdateOutcome>)
        ensures
            outcome == self@.update,
    {
        self.update
    }

    /// Whether the shutdown command succeeded, once it has run.
    pub fn shutdown_outcome(&self) -> (outcome: Option<bool>)
        ensures
            outcome == self@.shutdown,
    {
        self.shutdown
    }

    /// What the caller is to do next.
    pub fn pending(&self) -> (action: Action)
        ensures
            action == self@.pending(),
    {
        match self.stage {
            Stage::Connecting => match self.connect.pending() {
                Some(attempt) => Action::Connect(attempt),
                None => Action::Finish,
            },
            Stage::Connected => Action::ApplyUpdates,
            Stage::Maintaining => Action::Sample {
                wait_secs: if self.polled {
                    POLL_SECS
                } else {
                    0
                },
            },
            Stage::Monitoring => Action::Shutdown,
            Stage::Closing => Action::Close,
            Stage::Done | Stage::Failed => Action::Finish,
        }
    }

    fn to_shutdown(&mut self)
        ensures
            final(self)@ == old(self)@.to_shutdown(),
    {
        if self.connect.did_wake() {
            self.stage = Stage::Monitoring;
        } else {
            self.stage = Stage::Closing;
        }
    }

    fn to_monitoring(&mut self, now: u64)
        ensures
            final(self)@ == old(self)@.to_monitoring(now),
    {
        if self.machine.steam() && self.connect.did_wake() {
            self.stage = Stage::Maintaining;
            self.monitor = ActivityMonitor::start(now, self.machine.steam_delay());
            self.polled = false;
        } else {
            self.to_shutdown();
        }
    }

    fn to_maintenance(&mut self, now: u64)
        ensures
            final(self)@ == old(self)@.to_maintenance(now),
    {
        if self.machine.flatpak() {
            self.stage = Stage::Connected;
        } else {
            self.to_monitoring(now);
        }
    }

    fn after_attempt(&mut self, connected: bool, now: u64)
        ensures
            final(self)@ == old(self)@.after_attempt(connected, now),
    {
        let has_wake_address = self.machine.mac().is_some();
        self.connect = self.connect.record(connected, has_wake_address);
        match self.connect {
            ConnectPhase::Connected { .. } => {
                self.to_maintenance(now);
            },
            ConnectPhase::Failed(failure) => {
                self.stage = Stage::Failed;
                self.error = Some(SessionError::Connect(failure));
            },
            _ => {},
        }
    }

    fn after_sample(&mut self, stdout: &[u8], now: u64)
        ensures
            final(self)@ == old(self)@.after_sample(stdout@, now),
    {
        self.polled = true;
        match parse_sample(stdout) {
            Err(failure) => {
                self.stage = Stage::Closing;
                self.error = Some(SessionError::Sample(failure));
            },
            Ok(magnitude) => {
                let verdict = self.monitor.observe(UsageSample { at: now, magnitude });
                if let Verdict::Idle = verdict {
                    self.to_shutdown();
                }
            },
        }
    }

    /// Takes the report on the pending action and returns the next one.
    ///
    /// `now` is the caller's clock in seconds, read when the event came
    /// about. An event that does not report on the pending action changes
    /// nothing, and the same action is pending still.
    pub fn advance(&mut self, event: Event, now: u64) -> (action: Action)
        ensures
            final(self)@ == old(self)@.step(event, now),
            action == final(self)@.pending(),
            old(self)@.wf() ==> final(self)@.wf(),
    {
        let pending = self.pending();
        match event {
            Event::Attempted { connected } => {
                if let Action::Connect(_) = pending {
                    self.after_attempt(connected, now);
                }
            },
            Event::CommandExited { success } => {
                match pending {
                    Action::ApplyUpdates => {
                        self.update = Some(UpdateOutcome::from_exit(success));
                        self.to_monitoring(now);
                    },
                    Action::Shutdown => {
                        self.stage = Stage::Closing;
                        self.shutdown = Some(success);
                    },
                    _ => {},
                }
            },
            Event::Sampled { stdout } => {
                if let Action::Sample { .. } = pending {
                    self.after_sample(stdout.as_slice(), now);
                }
            },
            Event::Closed => {
                if let Action::Close = pending {
                    self.stage = Stage::Done;
                }
            },
        }
        proof {
            if old(self)@.wf() {
                lemma_step_keeps_wf(old(self)@, event, now);
            }
        }
        self.pending()
    }
}

/// A step leads from a session of a run to a session of a run.
pub proof fn lemma_step_keeps_wf(session: SessionView, event: Event, now: u64)
    requires
        session.wf(),
    ensures
        session.step(event, now).wf(),
{
}

} // verus!

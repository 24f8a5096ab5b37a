//! Activity monitoring: a machine is idle once no sample has exceeded the
//! activity threshold for longer than its idle timeout.
//!
//! The caller samples once per `POLL_SECS`; `ActivityMonitor::observe`
//! judges each sample. Time is in whole seconds of the caller's clock.

use vstd::prelude::*;

verus! {

/// A sample above this magnitude shows activity.
pub const ACTIVITY_THRESHOLD: u64 = 250;

/// Seconds between two samples.
pub const POLL_SECS: u64 = 1;

/// One observation of the machine's activity.
#[derive(Debug, Clone, Copy, PartialEq, Eq, Structural)]
pub struct UsageSample {
    /// When the sample was taken, in seconds.
    pub at: u64,
    /// The measured activity.
    pub magnitude: u64,
}

/// What a sample shows.
#[derive(Debug, Clone, Copy, PartialEq, Eq, Structural)]
pub enum Verdict {
    /// The sample exceeds the threshold: the machine is in use.
    Active,
    /// No activity, but not for long enough yet.
    Quiet,
    /// No activity for longer than the idle timeout: monitoring ends.
    Idle,
}

/// The monitor's memory: when activity was last seen, and how long the
/// machine may be quiet.
#[derive(Debug, Clone, Copy, PartialEq, Eq, Structural)]
pub struct ActivityMonitor {
    /// When activity was last seen (or monitoring began), in seconds.
    pub last_active: u64,
    /// Minutes without activity after which the machine is idle.
    pub idle_minutes: u64,
}

impl UsageSample {
    /// Whether the sample shows activity.
    pub open spec fn is_active(self) -> bool {
        self.magnitude > ACTIVITY_THRESHOLD
    }
}

impl ActivityMonitor {
    /// Whether, at time `at`, activity was last seen longer ago than the
    /// idle timeout.
    pub open spec fn quiet_too_long(self, at: u64) -> bool {
        at - self.last_active > self.idle_minutes * 60
    }

    /// The monitor after `sample`: activity moves `last_active` to the
    /// sample's time, anything else leaves the monitor as it is.
    pub open spec fn after(self, sample: UsageSample) -> ActivityMonitor {
        if sample.is_active() {
            ActivityMonitor { last_active: sample.at, idle_minutes: self.idle_minutes }
        } else {
            self
        }
    }

    /// What `sample` shows to this monitor.
    pub open spec fn verdict(self, sample: UsageSample) -> Verdict {
        if sample.is_active() {
            Verdict::Active
        } else if self.quiet_too_long(sample.at) {
            Verdict::Idle
        } else {
            Verdict::Quiet
        }
    }

    /// A monitor that begins to watch at time `now`.
    pub fn start(now: u64, idle_minutes: u64) -> (monitor: Self)
        ensures
            monitor == (ActivityMonitor { last_active: now, idle_minutes }),
    {
        ActivityMonitor { last_active: now, idle_minutes }
    }

    /// Judges one sample and remembers it.
    pub fn observe(&mut self, sample: UsageSample) -> (verdict: Verdict)
        ensures
            verdict == old(self).verdict(sample),
            *final(self) == old(self).after(sample),
    {
        if sample.magnitude > ACTIVITY_THRESHOLD {
            self.last_active = sample.at;
            Verdict::Active
        } else if sample.at > self.last_active && (sample.at - self.last_active) as u128
            > self.idle_minutes as u128 * 60 {
            Verdict::Idle
        } else {
            Verdict::Quiet
        }
    }
}

/// The position of the first sample at which the monitor declares the
/// machine idle, or the number of samples where it declares none: the
/// polling loop runs on for as long as this is the length of the stream.
pub open spec fn idle_position(monitor: ActivityMonitor, samples: Seq<UsageSample>) -> nat
    decreases samples.len(),
{
    if samples.len() == 0 || monitor.verdict(samples[0]) is Idle {
        0
    } else {
        1 + idle_position(monitor.after(samples[0]), samples.drop_first())
    }
}

/// While every sample exceeds the threshold, the monitor never declares the
/// machine idle, however long the stream is.
pub proof fn law_busy_machine_is_never_idle(monitor: ActivityMonitor, samples: Seq<UsageSample>)
    requires
        forall|i: int| 0 <= i < samples.len() ==> (#[trigger] samples[i]).is_active(),
    ensures
        idle_position(monitor, samples) == samples.len(),
    decreases samples.len(),
{
    if samples.len() > 0 {
        let rest = samples.drop_first();
        assert forall|i: int| 0 <= i < rest.len() implies (#[trigger] rest[i]).is_active() by {
            assert(rest[i] == samples[i + 1]);
        }
        law_busy_machine_is_never_idle(monitor.after(samples[0]), rest);
    }
}

/// While no sample exceeds the threshold, the monitor declares the machine
/// idle at the first sample taken longer after `last_active` than the idle
/// timeout, and at none before it.
pub proof fn law_quiet_machine_is_idle_at_the_bound(
    monitor: ActivityMonitor,
    samples: Seq<UsageSample>,
)
    requires
        forall|i: int| 0 <= i < samples.len() ==> !(#[trigger] samples[i]).is_active(),
    ensures
        idle_position(monitor, samples) <= samples.len(),
        forall|i: int|
            0 <= i < idle_position(monitor, samples) ==> (#[trigger] samples[i]).at
                - monitor.last_active <= monitor.idle_minutes * 60,
        idle_position(monitor, samples) < samples.len() ==> samples[idle_position(
            monitor,
            samples,
        ) as int].at - monitor.last_active > monitor.idle_minutes * 60,
    decreases samples.len(),
{
    if samples.len() > 0 && !(monitor.verdict(samples[0]) is Idle) {
        let rest = samples.drop_first();
        assert forall|i: int| 0 <= i < rest.len() implies !(#[trigger] rest[i]).is_active() by {
            assert(rest[i] == samples[i + 1]);
        }
        law_quiet_machine_is_idle_at_the_bound(monitor, rest);
        assert forall|i: int| 0 <= i < idle_position(monitor, samples) implies (
        #[trigger] samples[i]).at - monitor.last_active <= monitor.idle_minutes * 60 by {
            if i > 0 {
                assert(samples[i] == rest[i - 1]);
            }
        }
        if idle_position(monitor, samples) < samples.len() {
            assert(samples[idle_position(monitor, samples) as int] == rest[idle_position(
                monitor,
                rest,
            ) as int]);
        }
    }
}

} // verus!

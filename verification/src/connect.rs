//! Connection establishment: retry with a short backoff, wake the machine
//! once after the second failure, give up after too many.
//!
//! The retry object is a small state machine. The caller makes the
//! attempts and the waits; `ConnectPhase::record` decides what follows each
//! attempt, and `ConnectPhase::pending` says what the caller does next.

use vstd::prelude::*;

verus! {

/// The failure count at which the machine is woken.
pub const WAKE_AT_FAILURES: u32 = 2;

/// The most failures after which another attempt is still made.
pub const MAX_FAILURES: u32 = 5;

/// Seconds waited after a failed attempt before the next one.
pub const BACKOFF_SECS: u64 = 3;

/// Seconds given to a machine to start after the wake signal.
pub const SETTLE_SECS: u64 = 60;

/// Why no connection came about.
#[derive(Debug, Clone, Copy, PartialEq, Eq, Structural)]
pub enum ConnectFailure {
    /// The machine had to be woken and no hardware address is configured.
    NoWakeAddress,
    /// Too many attempts failed.
    Exhausted,
    /// The transport failed in a way that no retry is made for.
    TransportError,
}

/// Where an establishment stands.
#[derive(Debug, Clone, Copy, PartialEq, Eq, Structural)]
pub enum ConnectPhase {
    /// No attempt has been made.
    NotStarted,
    /// `failures` attempts have failed; the next follows the backoff.
    Retrying { failures: u32 },
    /// The second attempt has failed and the machine is being woken; the
    /// next attempt follows the settle period and the backoff.
    WokeWaiting,
    /// An attempt succeeded.
    Connected { did_wake: bool },
    /// No further attempt is made.
    Failed(ConnectFailure),
}

/// What the caller does before and with the next attempt.
#[derive(Debug, Clone, Copy, PartialEq, Eq, Structural)]
pub struct Attempt {
    /// Broadcast the wake signal first.
    pub wake: bool,
    /// Seconds to wait before connecting (after the broadcast, if any).
    pub wait_secs: u64,
}

impl ConnectPhase {
    /// The attempts that have failed so far, while attempts are still made.
    pub open spec fn failures(self) -> nat {
        match self {
            ConnectPhase::Retrying { failures } => failures as nat,
            ConnectPhase::WokeWaiting => WAKE_AT_FAILURES as nat,
            _ => 0,
        }
    }

    /// Whether the wake signal has been broadcast on the way to this phase.
    pub open spec fn woke(self) -> bool {
        match self {
            ConnectPhase::Retrying { failures } => failures > WAKE_AT_FAILURES,
            ConnectPhase::WokeWaiting => true,
            ConnectPhase::Connected { did_wake } => did_wake,
            _ => false,
        }
    }

    /// Whether the establishment has ended, either way.
    pub open spec fn is_terminal(self) -> bool {
        self is Connected || self is Failed
    }

    /// The phases that a run from `NotStarted` passes through.
    pub open spec fn reachable(self) -> bool {
        match self {
            ConnectPhase::Retrying { failures } => failures == 1 || (WAKE_AT_FAILURES < failures
                <= MAX_FAILURES),
            ConnectPhase::Failed(f) => f != ConnectFailure::TransportError,
            _ => true,
        }
    }

    /// The phase after one more attempt, which `connected` tells the result
    /// of. A phase that has ended stays as it is.
    pub open spec fn spec_record(self, connected: bool, has_wake_address: bool) -> ConnectPhase {
        if self.is_terminal() {
            self
        } else if connected {
            ConnectPhase::Connected { did_wake: self.woke() }
        } else if self.failures() + 1 == WAKE_AT_FAILURES {
            if has_wake_address {
                ConnectPhase::WokeWaiting
            } else {
                ConnectPhase::Failed(ConnectFailure::NoWakeAddress)
            }
        } else if self.failures() + 1 > MAX_FAILURES {
            ConnectPhase::Failed(ConnectFailure::Exhausted)
        } else {
            ConnectPhase::Retrying { failures: (self.failures() + 1) as u32 }
        }
    }

    /// What the caller does next: nothing once the establishment has ended,
    /// else the attempt with what precedes it.
    pub open spec fn spec_pending(self) -> Option<Attempt> {
        match self {
            ConnectPhase::NotStarted => Some(Attempt { wake: false, wait_secs: 0 }),
            ConnectPhase::Retrying { .. } => Some(Attempt { wake: false, wait_secs: BACKOFF_SECS }),
            ConnectPhase::WokeWaiting => Some(
                Attempt { wake: true, wait_secs: (SETTLE_SECS + BACKOFF_SECS) as u64 },
            ),
            _ => None,
        }
    }

    /// The phase in which an establishment begins.
    pub fn start() -> (phase: Self)
        ensures
            phase == ConnectPhase::NotStarted,
    {
        ConnectPhase::NotStarted
    }

    /// Records the result of the attempt that was pending and returns the
    /// phase that follows.
    pub fn record(self, connected: bool, has_wake_address: bool) -> (next: Self)
        ensures
            next == self.spec_record(connected, has_wake_address),
    {
        let failures: u32 = match self {
            ConnectPhase::NotStarted => 0,
            ConnectPhase::Retrying { failures } => failures,
            ConnectPhase::WokeWaiting => WAKE_AT_FAILURES,
            ConnectPhase::Connected { .. } | ConnectPhase::Failed(_) => {
                return self;
            },
        };
        if connected {
            ConnectPhase::Connected { did_wake: self.did_wake() }
        } else if failures == WAKE_AT_FAILURES - 1 {
            if has_wake_address {
                ConnectPhase::WokeWaiting
            } else {
                ConnectPhase::Failed(ConnectFailure::NoWakeAddress)
            }
        } else if failures >= MAX_FAILURES {
            ConnectPhase::Failed(ConnectFailure::Exhausted)
        } else {
            ConnectPhase::Retrying { failures: failures + 1 }
        }
    }

    /// What the caller does next, if anything.
    pub fn pending(self) -> (attempt: Option<Attempt>)
        ensures
            attempt == self.spec_pending(),
    {
        match self {
            ConnectPhase::NotStarted => Some(Attempt { wake: false, wait_secs: 0 }),
            ConnectPhase::Retrying { .. } => Some(Attempt { wake: false, wait_secs: BACKOFF_SECS }),
            ConnectPhase::WokeWaiting => Some(
                Attempt { wake: true, wait_secs: SETTLE_SECS + BACKOFF_SECS },
            ),
            ConnectPhase::Connected { .. } | ConnectPhase::Failed(_) => None,
        }
    }

    /// Whether the wake signal has been broadcast on the way to this phase.
    pub fn did_wake(self) -> (woke: bool)
        ensures
            woke == self.woke(),
    {
        match self {
            ConnectPhase::Retrying { failures } => failures > WAKE_AT_FAILURES,
            ConnectPhase::WokeWaiting => true,
            ConnectPhase::Connected { did_wake } => did_wake,
            ConnectPhase::NotStarted | ConnectPhase::Failed(_) => false,
        }
    }

    /// Why the establishment failed, if it did.
    pub fn failure(self) -> (failure: Option<ConnectFailure>)
        ensures
            failure == (match self {
                ConnectPhase::Failed(f) => Some(f),
                _ => None,
            }),
    {
        match self {
            ConnectPhase::Failed(f) => Some(f),
            _ => None,
        }
    }
}

impl ConnectFailure {
    /// The failure in words, for a log line.
    pub fn message(self) -> (text: &'static str)
        ensures
            text@ == (match self {
                ConnectFailure::NoWakeAddress =>
                    "Could not connect to machine, no MAC address provided"@,
                ConnectFailure::Exhausted => "Could not connect to machine"@,
                ConnectFailure::TransportError => "Could not connect to machine, transport failed"@,
            }),
    {
        match self {
            ConnectFailure::NoWakeAddress => "Could not connect to machine, no MAC address provided",
            ConnectFailure::Exhausted => "Could not connect to machine",
            ConnectFailure::TransportError => "Could not connect to machine, transport failed",
        }
    }
}

/// The phase after a run of attempts from `phase`, whose results `results`
/// gives in order (`true`: connected).
pub open spec fn phase_after(phase: ConnectPhase, results: Seq<bool>, has_wake_address: bool)
    -> ConnectPhase
    decreases results.len(),
{
    if results.len() == 0 {
        phase
    } else {
        phase_after(
            phase.spec_record(results[0], has_wake_address),
            results.drop_first(),
            has_wake_address,
        )
    }
}

/// The wake broadcasts that the caller makes in a run of attempts from
/// `phase`: one for each attempt that it makes with `wake` set.
pub open spec fn wakes_during(phase: ConnectPhase, results: Seq<bool>, has_wake_address: bool)
    -> nat
    decreases results.len(),
{
    if results.len() == 0 {
        0
    } else {
        let now: nat = if phase.spec_pending() matches Some(a) && a.wake {
            1
        } else {
            0
        };
        now + wakes_during(
            phase.spec_record(results[0], has_wake_address),
            results.drop_first(),
            has_wake_address,
        )
    }
}

/// The attempts that the caller makes in a run from `phase`: results that
/// come after the establishment has ended belong to no attempt.
pub open spec fn attempts_during(phase: ConnectPhase, results: Seq<bool>, has_wake_address: bool)
    -> nat
    decreases results.len(),
{
    if results.len() == 0 || phase.is_terminal() {
        0
    } else {
        1 + attempts_during(
            phase.spec_record(results[0], has_wake_address),
            results.drop_first(),
            has_wake_address,
        )
    }
}

/// The failed attempts at the head of `results`, before the first success.
pub open spec fn leading_failures(results: Seq<bool>) -> nat
    decreases results.len(),
{
    if results.len() == 0 || results[0] {
        0
    } else {
        1 + leading_failures(results.drop_first())
    }
}

/// The failure count at which an establishment gives up: at the wake
/// threshold where no hardware address is configured, else one past
/// `MAX_FAILURES`.
pub open spec fn giving_up_at(has_wake_address: bool) -> nat {
    if has_wake_address {
        (MAX_FAILURES + 1) as nat
    } else {
        WAKE_AT_FAILURES as nat
    }
}

/// The failure that an establishment ends in when it gives up.
pub open spec fn giving_up_with(has_wake_address: bool) -> ConnectFailure {
    if has_wake_address {
        ConnectFailure::Exhausted
    } else {
        ConnectFailure::NoWakeAddress
    }
}

/// The phase in which attempts are still made after `failures` failures.
pub open spec fn phase_at(failures: nat) -> ConnectPhase {
    if failures == 0 {
        ConnectPhase::NotStarted
    } else if failures == WAKE_AT_FAILURES {
        ConnectPhase::WokeWaiting
    } else {
        ConnectPhase::Retrying { failures: failures as u32 }
    }
}

/// The least of three numbers.
pub open spec fn least(a: nat, b: nat, c: nat) -> nat {
    if a <= b && a <= c {
        a
    } else if b <= c {
        b
    } else {
        c
    }
}

/// A phase that has ended takes no further attempt: it stays, and the
/// caller neither connects nor wakes.
pub proof fn lemma_ended_stays(phase: ConnectPhase, results: Seq<bool>, has_wake_address: bool)
    requires
        phase.is_terminal(),
    ensures
        phase_after(phase, results, has_wake_address) == phase,
        wakes_during(phase, results, has_wake_address) == 0,
        attempts_during(phase, results, has_wake_address) == 0,
    decreases results.len(),
{
    if results.len() > 0 {
        lemma_ended_stays(phase, results.drop_first(), has_wake_address);
    }
}

/// What a run of attempts comes to, in closed form. From a phase with `f`
/// failures in which attempts are still made, and with `l` failures at the
/// head of the results: the run gives up once `f + l` reaches the limit,
/// else connects if a success follows, else is still trying. The caller
/// makes an attempt for each result until then, and wakes the machine with
/// the third attempt of the establishment and with no other.
pub proof fn lemma_run_from(failures: nat, results: Seq<bool>, has_wake_address: bool)
    requires
        failures < giving_up_at(has_wake_address),
    ensures
        ({
            let phase = phase_at(failures);
            let l = leading_failures(results);
            let attempts = attempts_during(phase, results, has_wake_address);
            &&& phase_after(phase, results, has_wake_address) == if failures + l >= giving_up_at(
                has_wake_address,
            ) {
                ConnectPhase::Failed(giving_up_with(has_wake_address))
            } else if l < results.len() {
                ConnectPhase::Connected { did_wake: failures + l >= WAKE_AT_FAILURES }
            } else {
                phase_at(failures + l)
            }
            &&& attempts == least(
                results.len(),
                l + 1,
                (giving_up_at(has_wake_address) - failures) as nat,
            )
            &&& wakes_during(phase, results, has_wake_address) == if failures <= WAKE_AT_FAILURES
                && failures + attempts > WAKE_AT_FAILURES {
                1nat
            } else {
                0nat
            }
        }),
    decreases results.len(),
{
    let phase = phase_at(failures);
    if results.len() > 0 {
        let rest = results.drop_first();
        let next = phase.spec_record(results[0], has_wake_address);
        if next.is_terminal() {
            lemma_ended_stays(next, rest, has_wake_address);
        } else {
            assert(next == phase_at(failures + 1));
            lemma_run_from(failures + 1, rest, has_wake_address);
        }
    }
}

/// An establishment ends in exactly one of three ways, which the failures
/// before the first success decide: it gives up (with `NoWakeAddress` at the
/// second failure where no hardware address is configured, with `Exhausted`
/// at the sixth where one is), it connects, or it is still trying.
pub proof fn law_establishment_outcome(results: Seq<bool>, has_wake_address: bool)
    ensures
        phase_after(ConnectPhase::NotStarted, results, has_wake_address) == if leading_failures(
            results,
        ) >= giving_up_at(has_wake_address) {
            ConnectPhase::Failed(giving_up_with(has_wake_address))
        } else if leading_failures(results) < results.len() {
            ConnectPhase::Connected { did_wake: leading_failures(results) >= WAKE_AT_FAILURES }
        } else {
            phase_at(leading_failures(results))
        },
{
    lemma_run_from(0, results, has_wake_address);
}

/// The wake signal is broadcast at most once in an establishment, and only
/// where a hardware address is configured.
pub proof fn law_wake_at_most_once(results: Seq<bool>, has_wake_address: bool)
    ensures
        wakes_during(ConnectPhase::NotStarted, results, has_wake_address) <= 1,
        !has_wake_address ==> wakes_during(ConnectPhase::NotStarted, results, has_wake_address)
            == 0,
{
    lemma_run_from(0, results, has_wake_address);
}

/// A session that comes out of an establishment says that it woke the
/// machine exactly where the wake signal was broadcast.
pub proof fn law_did_wake_tells_the_broadcast(results: Seq<bool>, has_wake_address: bool)
    requires
        phase_after(ConnectPhase::NotStarted, results, has_wake_address) is Connected,
    ensures
        phase_after(ConnectPhase::NotStarted, results, has_wake_address).woke() == (wakes_during(
            ConnectPhase::NotStarted,
            results,
            has_wake_address,
        ) == 1),
{
    lemma_run_from(0, results, has_wake_address);
}

/// With fewer than two failures before the first success, no wake signal
/// is broadcast.
pub proof fn law_no_wake_before_second_failure(results: Seq<bool>, has_wake_address: bool)
    requires
        leading_failures(results) < WAKE_AT_FAILURES,
    ensures
        wakes_during(ConnectPhase::NotStarted, results, has_wake_address) == 0,
{
    lemma_run_from(0, results, has_wake_address);
}

/// With two failures and no hardware address, the establishment ends at
/// once with `NoWakeAddress`: whatever results follow, two attempts are made
/// and no third, and nothing is broadcast.
pub proof fn law_no_wake_address_ends_at_second_failure(results: Seq<bool>)
    requires
        leading_failures(results) >= WAKE_AT_FAILURES,
    ensures
        phase_after(ConnectPhase::NotStarted, results, false) == ConnectPhase::Failed(
            ConnectFailure::NoWakeAddress,
        ),
        attempts_during(ConnectPhase::NotStarted, results, false) == WAKE_AT_FAILURES,
        wakes_during(ConnectPhase::NotStarted, results, false) == 0,
{
    lemma_run_from(0, results, false);
    lemma_leading_failures_bound(results);
}

/// With two failures and a hardware address, the third attempt is the one
/// made with the wake signal: after the two failures the pending attempt
/// wakes, nothing was broadcast before it, and however the run goes on,
/// exactly one broadcast is made once a third attempt is. Where the third
/// attempt succeeds, the session woke the machine.
pub proof fn law_wake_precedes_third_attempt(results: Seq<bool>)
    requires
        results.len() >= 2,
        !results[0],
        !results[1],
    ensures
        phase_after(ConnectPhase::NotStarted, results.take(2), true) == ConnectPhase::WokeWaiting,
        ConnectPhase::WokeWaiting.spec_pending() == Some(
            Attempt { wake: true, wait_secs: (SETTLE_SECS + BACKOFF_SECS) as u64 },
        ),
        wakes_during(ConnectPhase::NotStarted, results.take(2), true) == 0,
        results.len() >= 3 ==> wakes_during(ConnectPhase::NotStarted, results, true) == 1,
        results.len() >= 3 && results[2] ==> phase_after(ConnectPhase::NotStarted, results, true)
            == (ConnectPhase::Connected { did_wake: true }),
{
    let head = results.take(2);
    lemma_leading_failures_prefix(head, 2);
    lemma_leading_failures_bound(head);
    lemma_run_from(0, head, true);
    lemma_leading_failures_prefix(results, 2);
    lemma_leading_failures_bound(results);
    lemma_run_from(0, results, true);
    if results.len() >= 3 && results[2] {
        lemma_leading_failures_stop(results, 2);
    }
}

/// With more than five failures and a hardware address, the establishment
/// ends with `Exhausted` after six attempts: no phase of the run is
/// `Connected`, so no session comes out of it.
pub proof fn law_exhausted_after_max_failures(results: Seq<bool>, seen: int)
    requires
        leading_failures(results) > MAX_FAILURES,
        0 <= seen <= results.len(),
    ensures
        phase_after(ConnectPhase::NotStarted, results, true) == ConnectPhase::Failed(
            ConnectFailure::Exhausted,
        ),
        attempts_during(ConnectPhase::NotStarted, results, true) == MAX_FAILURES + 1,
        wakes_during(ConnectPhase::NotStarted, results, true) == 1,
        !(phase_after(ConnectPhase::NotStarted, results.take(seen), true) is Connected),
{
    lemma_run_from(0, results, true);
    lemma_leading_failures_bound(results);
    let head = results.take(seen);
    lemma_run_from(0, head, true);
    lemma_leading_failures_bound(head);
    if leading_failures(head) < head.len() {
        lemma_leading_failures_take(results, seen);
    }
}

/// No more failures stand at the head of a sequence than it has results.
pub proof fn lemma_leading_failures_bound(results: Seq<bool>)
    ensures
        leading_failures(results) <= results.len(),
        forall|i: int| 0 <= i < leading_failures(results) ==> !results[i],
        leading_failures(results) < results.len() ==> results[leading_failures(results) as int],
    decreases results.len(),
{
    if results.len() > 0 && !results[0] {
        let rest = results.drop_first();
        lemma_leading_failures_bound(rest);
        assert forall|i: int| 0 <= i < leading_failures(results) implies !results[i] by {
            if i > 0 {
                assert(results[i] == rest[i - 1]);
            }
        }
        if leading_failures(results) < results.len() {
            assert(results[leading_failures(results) as int] == rest[leading_failures(rest) as int]);
        }
    }
}

/// Where the first `n` results are failures, at least `n` failures stand at
/// the head.
pub proof fn lemma_leading_failures_prefix(results: Seq<bool>, n: int)
    requires
        0 <= n <= results.len(),
        forall|i: int| 0 <= i < n ==> !results[i],
    ensures
        leading_failures(results) >= n,
    decreases n,
{
    if n > 0 {
        let rest = results.drop_first();
        assert forall|i: int| 0 <= i < n - 1 implies !rest[i] by {
            assert(rest[i] == results[i + 1]);
        }
        lemma_leading_failures_prefix(rest, n - 1);
    }
}

/// Where the first `n` results are failures and the next is a success,
/// exactly `n` failures stand at the head.
pub proof fn lemma_leading_failures_stop(results: Seq<bool>, n: int)
    requires
        0 <= n < results.len(),
        forall|i: int| 0 <= i < n ==> !results[i],
        results[n],
    ensures
        leading_failures(results) == n,
{
    lemma_leading_failures_prefix(results, n);
    lemma_leading_failures_bound(results);
}

/// A prefix that holds a success within the leading failures of the whole
/// does not exist: the failures at the head of a prefix are those of the
/// whole, cut at the prefix's length.
pub proof fn lemma_leading_failures_take(results: Seq<bool>, n: int)
    requires
        0 <= n <= results.len(),
    ensures
        leading_failures(results.take(n)) == if leading_failures(results) <= n {
            leading_failures(results)
        } else {
            n as nat
        },
{
    let head = results.take(n);
    lemma_leading_failures_bound(results);
    lemma_leading_failures_bound(head);
    let l = leading_failures(results);
    if l <= n {
        if l < n {
            assert(head[l as int] == results[l as int]);
            assert forall|i: int| 0 <= i < l implies !head[i] by {
                assert(head[i] == results[i]);
            }
            lemma_leading_failures_stop(head, l as int);
        } else {
            assert forall|i: int| 0 <= i < n implies !head[i] by {
                assert(head[i] == results[i]);
            }
            lemma_leading_failures_prefix(head, n);
        }
    } else {
        assert forall|i: int| 0 <= i < n implies !head[i] by {
            assert(head[i] == results[i]);
        }
        lemma_leading_failures_prefix(head, n);
    }
}

} // verus!

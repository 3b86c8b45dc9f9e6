//! Bounded waiting for the ledger endpoint to become healthy.
//!
//! The caller probes the endpoint and reports each outcome; this state
//! machine decides whether to wait and probe again, to report the endpoint
//! ready, or to give up. A settled machine takes no more reports, so the
//! retry is bounded and cannot be resumed.
use vstd::prelude::*;

use crate::blockchain::GatewayError;

verus! {

/// Probes made by default before the endpoint is declared unreachable.
pub const DEFAULT_MAX_ATTEMPTS: u32 = 10;

/// Seconds waited by default between a failed probe and the next one.
pub const DEFAULT_RETRY_INTERVAL_SECS: u64 = 3;

/// The state of a wait, as mathematical values.
pub struct HealthState {
    pub attempts: nat,
    pub max_attempts: nat,
    /// `None` while undecided; then whether the endpoint answered healthy.
    pub verdict: Option<bool>,
}

/// What the caller does after reporting a probe.
#[derive(Debug, Clone, Copy, PartialEq, Eq, Structural)]
pub enum ProbeStep {
    /// The endpoint is healthy: stop.
    Ready,
    /// Wait this many seconds, then probe again.
    RetryAfter(u64),
    /// Every attempt failed: stop.
    Unreachable,
}

/// The state before any probe.
pub open spec fn start(max_attempts: nat) -> HealthState {
    HealthState {
        attempts: 0,
        max_attempts,
        verdict: if max_attempts == 0 {
            Some(false)
        } else {
            None
        },
    }
}

/// The state after one more probe outcome is reported.
pub open spec fn step(s: HealthState, healthy: bool) -> HealthState {
    if s.verdict is Some {
        s
    } else if healthy {
        HealthState { attempts: s.attempts + 1, verdict: Some(true), ..s }
    } else if s.attempts + 1 >= s.max_attempts {
        HealthState { attempts: s.attempts + 1, verdict: Some(false), ..s }
    } else {
        HealthState { attempts: s.attempts + 1, ..s }
    }
}

/// The state reached by reporting `outcomes` in order, stopping once settled.
pub open spec fn run(s: HealthState, outcomes: Seq<bool>) -> HealthState
    decreases outcomes.len(),
{
    if outcomes.len() == 0 || s.verdict is Some {
        s
    } else {
        run(step(s, outcomes[0]), outcomes.subrange(1, outcomes.len() as int))
    }
}

/// A wait for the ledger endpoint, bounded by a number of probes.
pub struct ConnectionHealth {
    attempts: u32,
    max_attempts: u32,
    interval_secs: u64,
    verdict: Option<bool>,
}

impl View for ConnectionHealth {
    type V = HealthState;

    closed spec fn view(&self) -> HealthState {
        HealthState {
            attempts: self.attempts as nat,
            max_attempts: self.max_attempts as nat,
            verdict: self.verdict,
        }
    }
}

impl ConnectionHealth {
    /// The seconds waited between a failed probe and the next.
    pub closed spec fn interval(&self) -> u64 {
        self.interval_secs
    }

    /// Attempts never exceed the bound, and an undecided wait has attempts left.
    pub closed spec fn wf(&self) -> bool {
        &&& self.attempts <= self.max_attempts
        &&& self.verdict is None ==> self.attempts < self.max_attempts
    }

    /// A wait that will probe at most `max_attempts` times, `interval_secs` apart.
    pub fn new(max_attempts: u32, interval_secs: u64) -> (r: Self)
        ensures
            r.wf(),
            r@ == start(max_attempts as nat),
            r.interval() == interval_secs,
    {
        ConnectionHealth {
            attempts: 0,
            max_attempts,
            interval_secs,
            verdict: if max_attempts == 0 {
                Some(false)
            } else {
                None
            },
        }
    }

    /// A wait of ten probes, three seconds apart.
    pub fn with_defaults() -> (r: Self)
        ensures
            r.wf(),
            r@ == start(DEFAULT_MAX_ATTEMPTS as nat),
            r.interval() == DEFAULT_RETRY_INTERVAL_SECS,
    {
        Self::new(DEFAULT_MAX_ATTEMPTS, DEFAULT_RETRY_INTERVAL_SECS)
    }

    /// Whether another probe is due.
    pub fn wants_probe(&self) -> (r: bool)
        ensures
            r == (self@.verdict is None),
    {
        self.verdict.is_none()
    }

    /// The number of probes reported so far.
    pub fn attempts(&self) -> (r: u32)
        ensures
            r == self@.attempts,
    {
        self.attempts
    }

    /// Reports the outcome of one probe and says what to do next.
    pub fn record_probe(&mut self, healthy: bool) -> (r: ProbeStep)
        requires
            old(self).wf(),
            old(self)@.verdict is None,
        ensures
            final(self).wf(),
            final(self)@ == step(old(self)@, healthy),
            final(self).interval() == old(self).interval(),
            r == (match final(self)@.verdict {
                Some(true) => ProbeStep::Ready,
                Some(false) => ProbeStep::Unreachable,
                None => ProbeStep::RetryAfter(old(self).interval()),
            }),
    {
        self.attempts = self.attempts + 1;
        if healthy {
            self.verdict = Some(true);
            ProbeStep::Ready
        } else if self.attempts >= self.max_attempts {
            self.verdict = Some(false);
            ProbeStep::Unreachable
        } else {
            ProbeStep::RetryAfter(self.interval_secs)
        }
    }

    /// The result of the wait once it is settled: ready, or a terminal
    /// unreachable error.
    pub fn outcome(&self) -> (r: Option<Result<(), GatewayError>>)
        ensures
            r == (match self@.verdict {
                Some(true) => Some(Ok(())),
                Some(false) => Some(Err(GatewayError::Unreachable)),
                None => None,
            }),
    {
        match self.verdict {
            Some(true) => Some(Ok(())),
            Some(false) => Some(Err(GatewayError::Unreachable)),
            None => None,
        }
    }
}

/// From an undecided state, failures for every attempt left exhaust the wait.
proof fn lemma_failures_exhaust(s: HealthState, outcomes: Seq<bool>)
    requires
        s.verdict is None,
        s.attempts < s.max_attempts,
        outcomes.len() >= s.max_attempts - s.attempts,
        forall|i: int| 0 <= i < outcomes.len() ==> !outcomes[i],
    ensures
        run(s, outcomes) == (HealthState {
            attempts: s.max_attempts,
            max_attempts: s.max_attempts,
            verdict: Some(false),
        }),
    decreases outcomes.len(),
{
    let next = step(s, outcomes[0]);
    let rest = outcomes.subrange(1, outcomes.len() as int);
    assert(run(s, outcomes) == run(next, rest));
    if next.verdict is None {
        assert forall|i: int| 0 <= i < rest.len() implies !rest[i] by {
            assert(rest[i] == outcomes[i + 1]);
        }
        lemma_failures_exhaust(next, rest);
    }
}

/// A wait whose probes always fail makes exactly `max_attempts` probes and
/// ends unreachable, however many more failures are on offer.
pub proof fn lemma_always_failing(max_attempts: nat, outcomes: Seq<bool>)
    requires
        outcomes.len() >= max_attempts,
        forall|i: int| 0 <= i < outcomes.len() ==> !outcomes[i],
    ensures
        run(start(max_attempts), outcomes).attempts == max_attempts,
        run(start(max_attempts), outcomes).verdict == Some(false),
{
    if max_attempts > 0 {
        lemma_failures_exhaust(start(max_attempts), outcomes);
    }
}

/// From an undecided state, a first success `k` probes later ends the wait
/// ready after exactly those `k` probes.
proof fn lemma_success_after(s: HealthState, outcomes: Seq<bool>, k: nat)
    requires
        s.verdict is None,
        1 <= k,
        s.attempts + k <= s.max_attempts,
        outcomes.len() >= k,
        outcomes[k - 1],
        forall|i: int| 0 <= i < k - 1 ==> !outcomes[i],
    ensures
        run(s, outcomes) == (HealthState {
            attempts: s.attempts + k,
            max_attempts: s.max_attempts,
            verdict: Some(true),
        }),
    decreases k,
{
    let next = step(s, outcomes[0]);
    let rest = outcomes.subrange(1, outcomes.len() as int);
    assert(run(s, outcomes) == run(next, rest));
    if k > 1 {
        assert(!outcomes[0]);
        assert forall|i: int| 0 <= i < k - 2 implies !rest[i] by {
            assert(rest[i] == outcomes[i + 1]);
        }
        assert(rest[k - 2] == outcomes[k - 1]);
        lemma_success_after(next, rest, (k - 1) as nat);
    }
}

/// A wait whose first healthy probe is probe `k`, with `k <= max_attempts`,
/// ends ready after exactly `k` probes.
pub proof fn lemma_first_success(max_attempts: nat, outcomes: Seq<bool>, k: nat)
    requires
        1 <= k <= max_attempts,
        outcomes.len() >= k,
        outcomes[k - 1],
        forall|i: int| 0 <= i < k - 1 ==> !outcomes[i],
    ensures
        run(start(max_attempts), outcomes).attempts == k,
        run(start(max_attempts), outcomes).verdict == Some(true),
{
    lemma_success_after(start(max_attempts), outcomes, k);
}

} // verus!

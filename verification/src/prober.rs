//! The readiness prober's retry schedule.
//!
//! After the child is spawned, the supervisor repeatedly tries a
//! short-lived connection to the allocated endpoint until one is accepted
//! or the attempt budget runs out.  The connection itself is an
//! operating-system call the embedding application makes, with a bounded
//! per-attempt timeout; [`ProbeSchedule`] fixes how many attempts are
//! made, when the prober sleeps between them, and when it gives up.
//! TCP-level acceptance is the sole readiness signal.

use vstd::prelude::*;

use vstd::arithmetic::mul::lemma_mul_inequality;

use crate::errors::ProbeResult;
use crate::target::parse_probe_target;
use crate::target::spec_parse_target;
use crate::target::ProbeTarget;
use vstd::string::StringSliceAdditionalSpecFns;

verus! {

/// How long one connection attempt may take before it is abandoned.
pub const PER_ATTEMPT_TIMEOUT_MS: u64 = 500;

/// How long the prober sleeps between two attempts.
pub const INTER_ATTEMPT_DELAY_MS: u64 = 500;

/// The default attempt budget: with the default timeout and delay, about
/// ten seconds of waiting in the worst case.
pub const DEFAULT_MAX_ATTEMPTS: u32 = 20;

/// What the prober does after one connection attempt.
#[derive(Clone, Copy, Debug, PartialEq, Eq, Structural)]
pub enum ProbeStep {
    /// The server accepted: report ready.
    ReportReady,
    /// Not accepted, budget left: sleep the inter-attempt delay, then try
    /// again.
    RetryAfterDelay,
    /// Not accepted and the budget is spent: report not ready.
    GiveUp,
}

/// The attempt budget of one readiness wait.
pub struct ProbeSchedule {
    pub max_attempts: u32,
    pub attempts_made: u32,
}

impl ProbeSchedule {
    /// No more attempts are ever made than the budget allows.
    pub open spec fn wf(self) -> bool {
        self.attempts_made <= self.max_attempts
    }

    /// A fresh schedule with the given budget.
    pub fn new(max_attempts: u32) -> (r: ProbeSchedule)
        ensures
            r.wf(),
            r.max_attempts == max_attempts,
            r.attempts_made == 0,
    {
        ProbeSchedule { max_attempts, attempts_made: 0 }
    }

    /// Whether the budget allows another connection attempt.
    pub fn can_attempt(&self) -> (r: bool)
        ensures
            r == (self.attempts_made < self.max_attempts),
    {
        self.attempts_made < self.max_attempts
    }

    /// Record the outcome of one connection attempt and decide what to do
    /// next: a success reports ready at once; a failure retries after the
    /// delay while budget is left, and gives up exactly when the budget
    /// is spent.
    pub fn record_attempt(&mut self, connected: bool) -> (r: ProbeStep)
        requires
            old(self).wf(),
            old(self).attempts_made < old(self).max_attempts,
        ensures
            final(self).wf(),
            final(self).max_attempts == old(self).max_attempts,
            final(self).attempts_made == old(self).attempts_made + 1,
            connected ==> r == ProbeStep::ReportReady,
            (!connected && old(self).attempts_made + 1 < old(self).max_attempts) ==> r
                == ProbeStep::RetryAfterDelay,
            (!connected && old(self).attempts_made + 1 == old(self).max_attempts) ==> r
                == ProbeStep::GiveUp,
    {
        self.attempts_made = self.attempts_made + 1;
        if connected {
            ProbeStep::ReportReady
        } else if self.attempts_made < self.max_attempts {
            ProbeStep::RetryAfterDelay
        } else {
            ProbeStep::GiveUp
        }
    }
}

/// Parse the probe target and open the attempt schedule for one readiness
/// wait.  Malformed text is rejected here, before any connection attempt
/// exists to be made, and is the only way the wait can fail other than by
/// spending its whole budget.
pub fn begin_wait(url: &str, max_attempts: u32) -> (r: Result<
    (ProbeTarget, ProbeSchedule),
    ProbeResult,
>)
    ensures
        match r {
            Ok(p) => spec_parse_target(url.spec_bytes()) == Some((p.0.host@, p.0.port))
                && p.1.wf() && p.1.max_attempts == max_attempts && p.1.attempts_made == 0,
            Err(e) => e == ProbeResult::MalformedTarget && spec_parse_target(url.spec_bytes())
                is None,
        },
{
    let target = parse_probe_target(url)?;
    Ok((target, ProbeSchedule::new(max_attempts)))
}

/// What the wait loop yields on a trace of connection outcomes, starting
/// with `i` attempts already spent: whether readiness was reported, and
/// how many attempts were made in all.  `outcomes[j]` is whether the
/// `j`-th connection attempt would be accepted.
pub open spec fn spec_wait_from(outcomes: Seq<bool>, max: nat, i: nat) -> (bool, nat)
    decreases max - i,
    when i <= max
{
    if i >= max || i >= outcomes.len() {
        (false, i)
    } else if outcomes[i as int] {
        (true, (i + 1) as nat)
    } else {
        spec_wait_from(outcomes, max, (i + 1) as nat)
    }
}

/// The wait loop itself, on a given trace of connection outcomes,
/// verified for every trace: attempts are spent one at a time against
/// the schedule, the first accepted connection reports ready, and a
/// trace with no acceptance spends the whole budget and reports not
/// ready.  The embedding application runs this same loop with the real
/// connection attempts in place of the trace.
pub fn run_schedule(outcomes: &Vec<bool>, max: u32) -> (r: (bool, u32))
    requires
        outcomes@.len() >= max,
    ensures
        (r.0, r.1 as nat) == spec_wait_from(outcomes@, max as nat, 0),
        r.1 <= max,
{
    let mut sched = ProbeSchedule::new(max);
    let mut i: usize = 0;
    while sched.can_attempt()
        invariant
            sched.wf(),
            sched.max_attempts == max,
            sched.attempts_made == i,
            i <= max,
            outcomes@.len() >= max,
            spec_wait_from(outcomes@, max as nat, 0) == spec_wait_from(
                outcomes@,
                max as nat,
                i as nat,
            ),
        decreases max - i,
    {
        let connected = outcomes[i];
        let step = sched.record_attempt(connected);
        if connected {
            return (true, i as u32 + 1);
        }
        proof {
            assert(spec_wait_from(outcomes@, max as nat, i as nat) == spec_wait_from(
                outcomes@,
                max as nat,
                (i + 1) as nat,
            ));
        }
        i = i + 1;
        if step == ProbeStep::GiveUp {
            return (false, i as u32);
        }
    }
    (false, max)
}

/// Probing a target where nothing ever listens: every attempt fails, so
/// the wait spends exactly its whole budget and reports not ready —
/// never more attempts than `max`, hence never longer than the budget
/// bound of [`lemma_wait_bounded`].
pub proof fn lemma_wait_no_listener(outcomes: Seq<bool>, max: nat, i: nat)
    requires
        i <= max,
        outcomes.len() >= max,
        forall|j: int| 0 <= j < outcomes.len() ==> !outcomes[j],
    ensures
        spec_wait_from(outcomes, max, i) == (false, max),
    decreases max - i,
{
    if i < max {
        lemma_wait_no_listener(outcomes, max, i + 1);
    }
}

/// A listener already up when the wait begins: the very first attempt
/// connects and the wait reports ready after exactly one attempt.
pub proof fn lemma_wait_immediate_listener(outcomes: Seq<bool>, max: nat)
    requires
        max >= 1,
        outcomes.len() >= max,
        outcomes[0],
    ensures
        spec_wait_from(outcomes, max, 0) == (true, 1nat),
{
}

/// The whole wait is bounded: however the connection attempts turn out,
/// at most `max_attempts` are made, so the time spent never exceeds
/// `max_attempts * (per-attempt timeout + inter-attempt delay)`.
pub proof fn lemma_wait_bounded(s: ProbeSchedule, timeout_ms: nat, delay_ms: nat)
    requires
        s.wf(),
    ensures
        s.attempts_made * (timeout_ms + delay_ms) <= s.max_attempts * (timeout_ms + delay_ms),
{
    lemma_mul_inequality(
        s.attempts_made as int,
        s.max_attempts as int,
        (timeout_ms + delay_ms) as int,
    );
}

/// The worst-case length of one readiness wait, in milliseconds.
pub fn worst_case_wait_ms(max_attempts: u32, per_attempt_timeout_ms: u64, delay_ms: u64) -> (r:
    u64)
    requires
        per_attempt_timeout_ms + delay_ms <= u64::MAX,
        max_attempts * (per_attempt_timeout_ms + delay_ms) <= u64::MAX,
    ensures
        r == max_attempts * (per_attempt_timeout_ms + delay_ms),
{
    (max_attempts as u64) * (per_attempt_timeout_ms + delay_ms)
}

} // verus!

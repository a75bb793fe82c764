//! Waiting for a service to come up: the service is probed again and again,
//! with a pause that doubles from probe to probe up to a ceiling, until it
//! answers or a deadline has passed.
use vstd::prelude::*;
use vstd::string::*;

verus! {

/// Milliseconds of the pause after the first failed probe of a service.
pub const PROBE_FIRST_DELAY_MS: u64 = 100;

/// Milliseconds of the longest pause between two probes of a service.
pub const PROBE_MAX_DELAY_MS: u64 = 5_000;

/// Path of the route that answers once a service is up.
pub const HEALTH_PROBE_PATH: &'static str = "/health-probe";

/// How a service is probed: the pause before the second probe, the longest
/// pause between two probes, and the time after which probing ends, all in
/// milliseconds.
#[derive(Debug, Clone, Copy, PartialEq, Eq, Structural)]
pub struct ProbeSchedule {
    pub first_delay_ms: u64,
    pub max_delay_ms: u64,
    pub deadline_ms: u64,
}

/// The smaller of two numbers.
pub open spec fn min_spec(a: nat, b: nat) -> nat {
    if a <= b {
        a
    } else {
        b
    }
}

/// The pause after the failed probe number `attempt`, counted from 0, were
/// there no deadline: the first pause doubled `attempt` times, and never
/// more than the longest pause.
pub open spec fn backoff_spec(schedule: ProbeSchedule, attempt: nat) -> nat
    decreases attempt,
{
    if attempt == 0 {
        min_spec(schedule.first_delay_ms as nat, schedule.max_delay_ms as nat)
    } else {
        min_spec(2 * backoff_spec(schedule, (attempt - 1) as nat), schedule.max_delay_ms as nat)
    }
}

/// The pause after the failed probe number `attempt`, when `waited_ms`
/// milliseconds have been spent in pauses so far: the doubled pause, cut so
/// that the deadline is not passed; nothing once the deadline is reached.
pub open spec fn next_delay_spec(schedule: ProbeSchedule, attempt: nat, waited_ms: nat) -> Option<
    nat,
> {
    if waited_ms >= schedule.deadline_ms {
        None
    } else {
        Some(min_spec(backoff_spec(schedule, attempt), (schedule.deadline_ms - waited_ms) as nat))
    }
}

/// The time spent in the pauses after the first `attempts` failed probes.
pub open spec fn waited_spec(schedule: ProbeSchedule, attempts: nat) -> nat
    decreases attempts,
{
    if attempts == 0 {
        0
    } else {
        let before = waited_spec(schedule, (attempts - 1) as nat);
        match next_delay_spec(schedule, (attempts - 1) as nat, before) {
            Some(delay) => before + delay,
            None => before,
        }
    }
}

/// No pause is longer than the longest pause.
pub proof fn lemma_backoff_bounded(schedule: ProbeSchedule, attempt: nat)
    ensures
        backoff_spec(schedule, attempt) <= schedule.max_delay_ms,
    decreases attempt,
{
    if attempt > 0 {
        lemma_backoff_bounded(schedule, (attempt - 1) as nat);
    }
}

/// Where the first pause and the longest pause are not zero, no pause is.
pub proof fn lemma_backoff_positive(schedule: ProbeSchedule, attempt: nat)
    requires
        schedule.first_delay_ms > 0,
        schedule.max_delay_ms > 0,
    ensures
        backoff_spec(schedule, attempt) > 0,
    decreases attempt,
{
    if attempt > 0 {
        lemma_backoff_positive(schedule, (attempt - 1) as nat);
    }
}

/// Waiting is bounded: however often the service is probed, the pauses never
/// add up to more than the deadline.
pub proof fn lemma_waiting_is_bounded(schedule: ProbeSchedule, attempts: nat)
    ensures
        waited_spec(schedule, attempts) <= schedule.deadline_ms,
    decreases attempts,
{
    if attempts > 0 {
        lemma_waiting_is_bounded(schedule, (attempts - 1) as nat);
    }
}

/// Probing ends: where no pause is zero, each failed probe before the
/// deadline adds at least a millisecond of waiting, so that after as many
/// probes as the deadline has milliseconds the deadline is reached.
pub proof fn lemma_probing_ends(schedule: ProbeSchedule, attempts: nat)
    requires
        schedule.first_delay_ms > 0,
        schedule.max_delay_ms > 0,
    ensures
        waited_spec(schedule, attempts) >= min_spec(attempts, schedule.deadline_ms as nat),
        attempts >= schedule.deadline_ms ==> next_delay_spec(
            schedule,
            attempts,
            waited_spec(schedule, attempts),
        ) is None,
    decreases attempts,
{
    if attempts > 0 {
        let before = (attempts - 1) as nat;
        lemma_probing_ends(schedule, before);
        lemma_backoff_positive(schedule, before);
        lemma_waiting_is_bounded(schedule, before);
    }
    lemma_waiting_is_bounded(schedule, attempts);
}

/// The pause after the failed probe number `attempt`, were there no
/// deadline.
pub fn backoff(schedule: &ProbeSchedule, attempt: u32) -> (delay: u64)
    ensures
        delay == backoff_spec(*schedule, attempt as nat),
{
    let max = schedule.max_delay_ms;
    let mut delay: u64 = if schedule.first_delay_ms <= max {
        schedule.first_delay_ms
    } else {
        max
    };
    let mut i: u32 = 0;
    while i < attempt
        invariant
            i <= attempt,
            max == schedule.max_delay_ms,
            delay == backoff_spec(*schedule, i as nat),
            delay <= max,
        decreases attempt - i,
    {
        if delay > max / 2 {
            delay = max;
        } else {
            delay = 2 * delay;
        }
        i += 1;
    }
    delay
}

/// The pause after the failed probe number `attempt`, counted from 0, when
/// `waited_ms` milliseconds have been spent in pauses so far; nothing once
/// the deadline is reached: the service is then taken as it is.
pub fn next_delay(schedule: &ProbeSchedule, attempt: u32, waited_ms: u64) -> (delay: Option<u64>)
    ensures
        match delay {
            Some(d) => next_delay_spec(*schedule, attempt as nat, waited_ms as nat) == Some(
                d as nat,
            ) && waited_ms + d <= schedule.deadline_ms,
            None => next_delay_spec(*schedule, attempt as nat, waited_ms as nat) is None,
        },
{
    if waited_ms >= schedule.deadline_ms {
        return None;
    }
    let left = schedule.deadline_ms - waited_ms;
    let pause = backoff(schedule, attempt);
    if pause <= left {
        Some(pause)
    } else {
        Some(left)
    }
}

/// How a service is waited for: the path to probe, and how often and how
/// long. Where the service cannot be probed, the deadline is waited for.
#[derive(Debug)]
pub struct Readiness {
    pub probe_path: String,
    pub schedule: ProbeSchedule,
}

impl Readiness {
    /// Whether this is the wait for a service that is given up to
    /// `deadline_ms` milliseconds.
    pub open spec fn is_bounded_by(&self, deadline_ms: u64) -> bool {
        &&& self.probe_path@ == HEALTH_PROBE_PATH@
        &&& self.schedule == (ProbeSchedule {
            first_delay_ms: PROBE_FIRST_DELAY_MS,
            max_delay_ms: PROBE_MAX_DELAY_MS,
            deadline_ms,
        })
    }
}

/// The wait for a service that is given up to `deadline_ms` milliseconds.
pub fn readiness(deadline_ms: u64) -> (r: Readiness)
    ensures
        r.is_bounded_by(deadline_ms),
{
    Readiness {
        probe_path: String::from_str(HEALTH_PROBE_PATH),
        schedule: ProbeSchedule {
            first_delay_ms: PROBE_FIRST_DELAY_MS,
            max_delay_ms: PROBE_MAX_DELAY_MS,
            deadline_ms,
        },
    }
}

} // verus!

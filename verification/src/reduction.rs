//! The reduction of one domain's counters over a window: the effective
//! frequency and the part of the window during which the domain was active.

use vstd::prelude::*;
use crate::counters::{DomainCounters, DomainView, StepResidency};
use crate::metrics::{Usage, FULL_USAGE_PPM};

verus! {

/// The time spent at the steps together.
pub open spec fn active_time(steps: Seq<StepResidency>) -> nat
    decreases steps.len(),
{
    if steps.len() == 0 {
        0
    } else {
        active_time(steps.drop_last()) + steps.last().residency as nat
    }
}

/// The sum over the steps of frequency times the time spent at it.
pub open spec fn weighted_time(steps: Seq<StepResidency>) -> nat
    decreases steps.len(),
{
    if steps.len() == 0 {
        0
    } else {
        weighted_time(steps.drop_last()) + steps.last().frequency as nat
            * steps.last().residency as nat
    }
}

/// The mean of the steps' frequencies, each weighted by the time spent at
/// it and the quotient rounded down; zero where no time was spent at any.
pub open spec fn effective_frequency(steps: Seq<StepResidency>) -> nat {
    if active_time(steps) == 0 {
        0
    } else {
        weighted_time(steps) / active_time(steps)
    }
}

/// One minus idle time over window, in millionths rounded down, and held
/// within zero and one: zero where the idle time reaches the window or the
/// window is empty.
pub open spec fn usage_ppm(idle: nat, window: nat) -> nat {
    if idle >= window {
        0
    } else {
        ((window - idle) as nat * FULL_USAGE_PPM as nat) / window
    }
}

/// The counters of a domain can be reduced: the time spent at its steps
/// together fits the counters' own width.
pub open spec fn reducible(d: DomainView) -> bool {
    active_time(d.steps) <= u64::MAX
}

/// How a domain with the counters `d` ran during a window of `window`
/// nanoseconds. Neither field is cut short by its width: see
/// `lemma_usage_of_exact`.
pub open spec fn usage_of(d: DomainView, window: nat) -> Usage {
    Usage {
        frequency: effective_frequency(d.steps) as u32,
        usage_ppm: usage_ppm(d.idle, window) as u32,
    }
}

/// The reduction of a domain's counters over a window, or nothing where
/// they cannot be reduced.
pub open spec fn reduction(d: DomainView, window: nat) -> Option<Usage> {
    if reducible(d) {
        Some(usage_of(d, window))
    } else {
        None
    }
}

/// The time spent at the first steps of a list is at most the time spent at
/// all of them.
pub proof fn lemma_active_time_prefix(steps: Seq<StepResidency>, n: int)
    requires
        0 <= n <= steps.len(),
    ensures
        active_time(steps.take(n)) <= active_time(steps),
    decreases steps.len(),
{
    if n == steps.len() {
        assert(steps.take(n) =~= steps);
    } else {
        lemma_active_time_prefix(steps.drop_last(), n);
        assert(steps.drop_last().take(n) =~= steps.take(n));
    }
}

/// Where every step at which time was spent has a frequency between `lo` and
/// `hi`, the weighted sum lies between `lo` and `hi` times the active time.
pub proof fn lemma_weighted_time_bounds(steps: Seq<StepResidency>, lo: nat, hi: nat)
    requires
        forall|i: int|
            0 <= i < steps.len() && (#[trigger] steps[i]).residency > 0 ==> lo
                <= steps[i].frequency <= hi,
    ensures
        lo * active_time(steps) <= weighted_time(steps) <= hi * active_time(steps),
    decreases steps.len(),
{
    if steps.len() == 0 {
        assert(lo * 0 == 0 && hi * 0 == 0) by (nonlinear_arith);
    } else {
        let rest = steps.drop_last();
        let last = steps.last();
        lemma_weighted_time_bounds(rest, lo, hi);
        let a = active_time(rest);
        let w = weighted_time(rest);
        let f = last.frequency as nat;
        let r = last.residency as nat;
        assert(lo * (a + r) <= w + f * r <= hi * (a + r)) by (nonlinear_arith)
            requires
                lo * a <= w <= hi * a,
                r > 0 ==> lo <= f <= hi,
        ;
    }
}

/// The effective frequency lies within the frequencies of the steps at which
/// time was spent.
pub proof fn lemma_effective_frequency_bounds(steps: Seq<StepResidency>, lo: nat, hi: nat)
    requires
        active_time(steps) > 0,
        forall|i: int|
            0 <= i < steps.len() && (#[trigger] steps[i]).residency > 0 ==> lo
                <= steps[i].frequency <= hi,
    ensures
        lo <= effective_frequency(steps) <= hi,
{
    lemma_weighted_time_bounds(steps, lo, hi);
    let a = active_time(steps);
    let w = weighted_time(steps);
    assert(lo <= w / a <= hi) by (nonlinear_arith)
        requires
            a > 0,
            lo * a <= w <= hi * a,
    ;
}

/// The effective frequency of any counters fits the width of a frequency.
pub proof fn lemma_effective_frequency_fits(steps: Seq<StepResidency>)
    ensures
        effective_frequency(steps) <= u32::MAX,
{
    if active_time(steps) > 0 {
        lemma_effective_frequency_bounds(steps, 0, u32::MAX as nat);
    }
}

/// Usage is a part of the whole: never more than a million millionths, and
/// exactly that where the domain was never idle in a window that is not
/// empty.
pub proof fn lemma_usage_in_range(idle: nat, window: nat)
    ensures
        usage_ppm(idle, window) <= FULL_USAGE_PPM,
        idle == 0 && window > 0 ==> usage_ppm(idle, window) == FULL_USAGE_PPM,
{
    if idle < window {
        let active = (window - idle) as nat;
        assert((active * 1_000_000) / window <= 1_000_000) by (nonlinear_arith)
            requires
                0 <= active <= window,
                window > 0,
        ;
        if idle == 0 {
            assert((window * 1_000_000) / window == 1_000_000) by (nonlinear_arith)
                requires
                    window > 0,
            ;
        }
    }
}

/// `usage_of` gives the effective frequency and the usage themselves, and
/// the usage is a part of the whole.
pub proof fn lemma_usage_of_exact(d: DomainView, window: nat)
    ensures
        usage_of(d, window).frequency == effective_frequency(d.steps),
        usage_of(d, window).usage_ppm == usage_ppm(d.idle, window),
        usage_of(d, window).wf(),
{
    lemma_effective_frequency_fits(d.steps);
    lemma_usage_in_range(d.idle, window);
}

/// Reduces the counters of a domain over a window of `window_ns`
/// nanoseconds, or gives nothing where they cannot be reduced.
pub fn reduce(d: &DomainCounters, window_ns: u64) -> (out: Option<Usage>)
    ensures
        out == reduction(d@, window_ns as nat),
        out matches Some(usage) ==> usage.wf(),
{
    let n: usize = d.steps.len();
    let mut active: u64 = 0;
    let mut weighted: u128 = 0;
    let mut i: usize = 0;
    while i < n
        invariant
            i <= n,
            n == d.steps@.len(),
            active == active_time(d.steps@.take(i as int)),
            weighted == weighted_time(d.steps@.take(i as int)),
            weighted <= u32::MAX * active,
        decreases n - i,
    {
        let step = d.steps[i];
        proof {
            assert(d.steps@.take(i + 1).drop_last() =~= d.steps@.take(i as int));
        }
        match active.checked_add(step.residency) {
            None => {
                proof {
                    lemma_active_time_prefix(d.steps@, i + 1);
                }
                return None;
            },
            Some(sum) => {
                assert(step.frequency * step.residency <= u32::MAX * step.residency)
                    by (nonlinear_arith)
                    requires
                        step.frequency <= u32::MAX,
                ;
                weighted = weighted + (step.frequency as u128) * (step.residency as u128);
                active = sum;
            },
        }
        i += 1;
    }
    proof {
        assert(d.steps@.take(n as int) =~= d.steps@);
        lemma_usage_of_exact(d@, window_ns as nat);
    }
    let frequency: u32 = if active == 0 {
        0
    } else {
        (weighted / (active as u128)) as u32
    };
    let usage_ppm: u32 = if d.idle >= window_ns {
        0
    } else {
        (((window_ns - d.idle) as u128 * (FULL_USAGE_PPM as u128)) / (window_ns as u128)) as u32
    };
    Some(Usage { frequency, usage_ppm })
}

} // verus!

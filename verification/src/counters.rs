//! Cumulative residency counters as the counter source exposes them, and the
//! time that passed between two readings of them.

use vstd::prelude::*;

verus! {

/// The time a domain has spent at one frequency step.
#[derive(Debug, Clone, Copy, PartialEq, Eq)]
pub struct StepResidency {
    /// The step's frequency.
    pub frequency: u32,
    /// Time spent at the step, in nanoseconds.
    pub residency: u64,
}

/// The counters of one domain: time spent idle and time spent at each of the
/// domain's frequency steps, in nanoseconds.
#[derive(Debug, Clone, PartialEq, Eq)]
pub struct DomainCounters {
    pub idle: u64,
    pub steps: Vec<StepResidency>,
}

/// One reading of the counters of the three domains.
#[derive(Debug, Clone, PartialEq, Eq)]
pub struct CounterSample {
    pub ecpu: DomainCounters,
    pub pcpu: DomainCounters,
    pub gpu: DomainCounters,
}

/// The counters of one domain as mathematical values.
pub struct DomainView {
    pub idle: nat,
    pub steps: Seq<StepResidency>,
}

/// The counters of the three domains as mathematical values.
pub struct SampleView {
    pub ecpu: DomainView,
    pub pcpu: DomainView,
    pub gpu: DomainView,
}

impl View for DomainCounters {
    type V = DomainView;

    open spec fn view(&self) -> DomainView {
        DomainView { idle: self.idle as nat, steps: self.steps@ }
    }
}

impl View for CounterSample {
    type V = SampleView;

    open spec fn view(&self) -> SampleView {
        SampleView { ecpu: self.ecpu@, pcpu: self.pcpu@, gpu: self.gpu@ }
    }
}

/// `end` can be measured against `start`: both list the same frequency steps
/// and no counter has gone backwards.
pub open spec fn advanced(start: DomainView, end: DomainView) -> bool {
    &&& start.idle <= end.idle
    &&& start.steps.len() == end.steps.len()
    &&& forall|i: int|
        0 <= i < start.steps.len() ==> {
            &&& (#[trigger] start.steps[i]).frequency == end.steps[i].frequency
            &&& start.steps[i].residency <= end.steps[i].residency
        }
}

/// The time that passed at one step between two readings of it.
pub open spec fn step_elapsed(start: StepResidency, end: StepResidency) -> StepResidency {
    StepResidency {
        frequency: end.frequency,
        residency: (end.residency - start.residency) as u64,
    }
}

/// The time that passed in a domain between two readings of it, counter by
/// counter.
pub open spec fn elapsed(start: DomainView, end: DomainView) -> DomainView {
    DomainView {
        idle: (end.idle - start.idle) as nat,
        steps: Seq::new(end.steps.len(), |i: int| step_elapsed(start.steps[i], end.steps[i])),
    }
}

/// Every domain of `end` can be measured against the same domain of `start`.
pub open spec fn all_advanced(start: SampleView, end: SampleView) -> bool {
    &&& advanced(start.ecpu, end.ecpu)
    &&& advanced(start.pcpu, end.pcpu)
    &&& advanced(start.gpu, end.gpu)
}

impl DomainCounters {
    /// The time that passed in the domain since `start` was read, or nothing
    /// where this reading cannot be measured against `start`.
    pub fn since(&self, start: &DomainCounters) -> (delta: Option<DomainCounters>)
        ensures
            match delta {
                Some(d) => advanced(start@, self@) && d@ == elapsed(start@, self@),
                None => !advanced(start@, self@),
            },
    {
        if self.idle < start.idle || self.steps.len() != start.steps.len() {
            return None;
        }
        let n: usize = self.steps.len();
        let mut steps: Vec<StepResidency> = Vec::new();
        let mut i: usize = 0;
        while i < n
            invariant
                i <= n,
                n == self.steps@.len(),
                n == start.steps@.len(),
                steps@.len() == i,
                forall|k: int|
                    0 <= k < i ==> {
                        &&& (#[trigger] start.steps@[k]).frequency == self.steps@[k].frequency
                        &&& start.steps@[k].residency <= self.steps@[k].residency
                    },
                forall|k: int|
                    0 <= k < i ==> #[trigger] steps@[k] == step_elapsed(
                        start.steps@[k],
                        self.steps@[k],
                    ),
            decreases n - i,
        {
            let from = start.steps[i];
            let to = self.steps[i];
            if from.frequency != to.frequency || to.residency < from.residency {
                return None;
            }
            steps.push(StepResidency {
                frequency: to.frequency,
                residency: to.residency - from.residency,
            });
            i += 1;
        }
        let delta = DomainCounters { idle: self.idle - start.idle, steps };
        assert(delta@.steps =~= elapsed(start@, self@).steps);
        Some(delta)
    }
}

} // verus!

//! The sampling engine: a sampler measures one window at a time, from the
//! counters read when the window opens to the counters and gauges read when
//! it ends, and reduces it to one snapshot or to one error.

use vstd::prelude::*;
use crate::counters::{all_advanced, elapsed, CounterSample, SampleView};
use crate::metrics::{Gauges, Metrics};
use crate::reduction::{lemma_usage_of_exact, reduce, reducible, usage_of};

verus! {

/// The window that a caller gets who names none, in milliseconds.
pub const DEFAULT_WINDOW_MS: u32 = 500;

/// Nanoseconds in a millisecond.
pub const NANOS_PER_MILLI: u64 = 1_000_000;

/// What opening a session with the counter source came to.
#[derive(Debug, Clone, Copy, PartialEq, Eq)]
pub enum SourceStatus {
    /// The session is open.
    Ready,
    /// The host has no counter source.
    Unsupported,
    /// The caller may not open a session.
    PermissionDenied,
    /// The counter source is held by someone else.
    Busy,
}

/// Why no sampler could be created.
#[derive(Debug, Clone, Copy, PartialEq, Eq)]
pub enum InitError {
    /// The host has no counter source.
    Unsupported,
    /// The caller may not open a session.
    PermissionDenied,
    /// The counter source is held by someone else.
    Busy,
}

/// Why a window gave no snapshot.
#[derive(Debug, Clone, Copy, PartialEq, Eq)]
pub enum SamplingError {
    /// The end of a window was reported while none was open.
    WindowNotOpen,
    /// The session was lost before the window ended.
    SessionLost,
    /// The counters read at the end of the window cannot be measured against
    /// those read when it opened, or are too large to reduce.
    CountersUnreadable,
}

/// What is read from the counter source when a window ends.
#[derive(Debug, Clone, PartialEq)]
pub struct Reading<F> {
    pub counters: CounterSample,
    pub gauges: Gauges<F>,
}

/// A reading as mathematical values.
pub struct ReadingView<F> {
    pub counters: SampleView,
    pub gauges: Gauges<F>,
}

impl<F> View for Reading<F> {
    type V = ReadingView<F>;

    open spec fn view(&self) -> ReadingView<F> {
        ReadingView { counters: self.counters@, gauges: self.gauges }
    }
}

/// An open window as mathematical values: its length and the counters read
/// when it opened.
pub struct OpenWindow {
    pub window_ms: u32,
    pub baseline: SampleView,
}

struct Window {
    window_ms: u32,
    baseline: CounterSample,
}

/// A sampler: idle, or measuring one window.
pub struct Sampler {
    window: Option<Window>,
}

/// The length of a window in nanoseconds.
pub open spec fn window_nanos(window_ms: u32) -> nat {
    (window_ms * NANOS_PER_MILLI) as nat
}

/// What was read to open a window, as mathematical values: nothing where
/// the session was lost.
pub open spec fn baseline_view(baseline: Option<CounterSample>) -> Option<SampleView> {
    match baseline {
        Some(counters) => Some(counters@),
        None => None,
    }
}

/// What was read to end a window, as mathematical values: nothing where the
/// session was lost.
pub open spec fn end_view<F>(end: Option<Reading<F>>) -> Option<ReadingView<F>> {
    match end {
        Some(reading) => Some(reading@),
        None => None,
    }
}

/// The window that stands open once `baseline` was read for a window of
/// `window_ms` milliseconds: none where nothing was read.
pub open spec fn opened(window_ms: u32, baseline: Option<SampleView>) -> Option<OpenWindow> {
    match baseline {
        Some(counters) => Some(OpenWindow { window_ms, baseline: counters }),
        None => None,
    }
}

/// The counters `end` can be reduced over a window that opened at
/// `baseline`: every domain can be measured against its baseline, and the
/// time that passed in it can be reduced.
pub open spec fn readable(baseline: SampleView, end: SampleView) -> bool {
    &&& all_advanced(baseline, end)
    &&& reducible(elapsed(baseline.ecpu, end.ecpu))
    &&& reducible(elapsed(baseline.pcpu, end.pcpu))
    &&& reducible(elapsed(baseline.gpu, end.gpu))
}

/// The snapshot of a window of `window_ms` milliseconds that opened at the
/// counters `baseline` and ended at the counters `end` with the gauges
/// `gauges`: domain by domain the reduction of the time that passed, and
/// every gauge as it was read.
pub open spec fn snapshot_of<F>(
    window_ms: u32,
    baseline: SampleView,
    end: SampleView,
    gauges: Gauges<F>,
) -> Metrics<F> {
    Metrics::assembled(
        usage_of(elapsed(baseline.ecpu, end.ecpu), window_nanos(window_ms)),
        usage_of(elapsed(baseline.pcpu, end.pcpu), window_nanos(window_ms)),
        usage_of(elapsed(baseline.gpu, end.gpu), window_nanos(window_ms)),
        gauges,
    )
}

/// What a window comes to when it ends: its snapshot, whole, where a window
/// was open, the session lasted and the counters are readable; else the
/// error that names the first of these that failed. Nothing in between
/// exists.
pub open spec fn outcome<F>(window: Option<OpenWindow>, end: Option<ReadingView<F>>) -> Result<
    Metrics<F>,
    SamplingError,
> {
    match (window, end) {
        (None, _) => Err(SamplingError::WindowNotOpen),
        (Some(_), None) => Err(SamplingError::SessionLost),
        (Some(w), Some(reading)) => if readable(w.baseline, reading.counters) {
            Ok(snapshot_of(w.window_ms, w.baseline, reading.counters, reading.gauges))
        } else {
            Err(SamplingError::CountersUnreadable)
        },
    }
}

/// What measuring one whole window comes to: the loss of the session where
/// nothing could be read to open the window, else the outcome of the window
/// that opened.
pub open spec fn sample<F>(
    window_ms: u32,
    baseline: Option<SampleView>,
    end: Option<ReadingView<F>>,
) -> Result<Metrics<F>, SamplingError> {
    match baseline {
        Some(_) => outcome(opened(window_ms, baseline), end),
        None => Err(SamplingError::SessionLost),
    }
}

/// Reduces the counters read at the end of a window against those read when
/// it opened, or gives nothing where they are not readable.
pub fn snapshot<F>(
    window_ms: u32,
    baseline: &CounterSample,
    end: &CounterSample,
    gauges: Gauges<F>,
) -> (out: Option<Metrics<F>>)
    ensures
        out == if readable(baseline@, end@) {
            Some(snapshot_of(window_ms, baseline@, end@, gauges))
        } else {
            None
        },
        out matches Some(m) ==> m.wf(),
{
    let window_ns: u64 = (window_ms as u64) * NANOS_PER_MILLI;
    let ecpu = match end.ecpu.since(&baseline.ecpu) {
        Some(delta) => reduce(&delta, window_ns),
        None => None,
    };
    let pcpu = match end.pcpu.since(&baseline.pcpu) {
        Some(delta) => reduce(&delta, window_ns),
        None => None,
    };
    let gpu = match end.gpu.since(&baseline.gpu) {
        Some(delta) => reduce(&delta, window_ns),
        None => None,
    };
    match (ecpu, pcpu, gpu) {
        (Some(e), Some(p), Some(g)) => Some(Metrics::assemble(e, p, g, gauges)),
        _ => None,
    }
}

impl Sampler {
    /// The window that the sampler is measuring, if any.
    pub closed spec fn window(&self) -> Option<OpenWindow> {
        match self.window {
            Some(w) => Some(OpenWindow { window_ms: w.window_ms, baseline: w.baseline@ }),
            None => None,
        }
    }

    /// The sampler measures no window.
    pub open spec fn is_idle(&self) -> bool {
        self.window() is None
    }

    /// What measuring one whole window promises: `after` is the sampler and
    /// `out` the outcome once the window was measured on the sampler
    /// `before`. What `before` held has no part in it.
    pub open spec fn measures<F>(
        before: Sampler,
        after: Sampler,
        window_ms: u32,
        baseline: Option<SampleView>,
        end: Option<ReadingView<F>>,
        out: Result<Metrics<F>, SamplingError>,
    ) -> bool {
        after.is_idle() && out == sample(window_ms, baseline, end)
    }

    /// Creates a sampler on the session that was opened with the counter
    /// source: an idle one where the session is open, none where it is not.
    pub fn new(status: SourceStatus) -> (out: Result<Sampler, InitError>)
        ensures
            match status {
                SourceStatus::Ready => out matches Ok(sampler) && sampler.is_idle(),
                SourceStatus::Unsupported => out matches Err(InitError::Unsupported),
                SourceStatus::PermissionDenied => out matches Err(InitError::PermissionDenied),
                SourceStatus::Busy => out matches Err(InitError::Busy),
            },
    {
        match status {
            SourceStatus::Ready => Ok(Sampler { window: None }),
            SourceStatus::Unsupported => Err(InitError::Unsupported),
            SourceStatus::PermissionDenied => Err(InitError::PermissionDenied),
            SourceStatus::Busy => Err(InitError::Busy),
        }
    }

    /// Opens a window of `window_ms` milliseconds at the counters just read,
    /// or reports the loss of the session where nothing could be read. A
    /// window that was still open is given up either way: nothing of it is
    /// kept.
    pub fn begin(&mut self, window_ms: u32, baseline: Option<CounterSample>) -> (out: Result<
        (),
        SamplingError,
    >)
        ensures
            final(self).window() == opened(window_ms, baseline_view(baseline)),
            match baseline {
                Some(_) => out is Ok,
                None => out == Err::<(), SamplingError>(SamplingError::SessionLost),
            },
    {
        match baseline {
            Some(baseline) => {
                self.window = Some(Window { window_ms, baseline });
                Ok(())
            },
            None => {
                self.window = None;
                Err(SamplingError::SessionLost)
            },
        }
    }

    /// Ends the open window with what was read from the counter source, or
    /// with nothing where the session was lost, and gives the snapshot or the
    /// error. Either way the sampler is idle afterwards.
    pub fn finish<F>(&mut self, end: Option<Reading<F>>) -> (out: Result<
        Metrics<F>,
        SamplingError,
    >)
        ensures
            final(self).is_idle(),
            out == outcome(old(self).window(), end_view(end)),
            out matches Ok(m) ==> m.wf(),
    {
        let window = match self.window.take() {
            Some(window) => window,
            None => {
                return Err(SamplingError::WindowNotOpen);
            },
        };
        let reading = match end {
            Some(reading) => reading,
            None => {
                return Err(SamplingError::SessionLost);
            },
        };
        match snapshot(window.window_ms, &window.baseline, &reading.counters, reading.gauges) {
            Some(m) => Ok(m),
            None => Err(SamplingError::CountersUnreadable),
        }
    }

    /// Measures one whole window: opens it at `baseline` and ends it with
    /// `end`. The sampler is idle afterwards.
    pub fn get_metrics<F>(
        &mut self,
        window_ms: u32,
        baseline: Option<CounterSample>,
        end: Option<Reading<F>>,
    ) -> (out: Result<Metrics<F>, SamplingError>)
        ensures
            Sampler::measures(
                *old(self),
                *final(self),
                window_ms,
                baseline_view(baseline),
                end_view(end),
                out,
            ),
            out matches Ok(m) ==> m.wf(),
    {
        match self.begin(window_ms, baseline) {
            Ok(()) => self.finish(end),
            Err(e) => Err(e),
        }
    }
}

/// Two windows measured one after the other on one sampler: the second
/// comes to what the same window comes to on any other sampler, and leaves
/// the sampler as it leaves that one. Nothing of the first window is found
/// in the second.
pub proof fn lemma_windows_independent<F>(
    before: Sampler,
    between: Sampler,
    after: Sampler,
    other_before: Sampler,
    other_after: Sampler,
    first_ms: u32,
    first_baseline: Option<SampleView>,
    first_end: Option<ReadingView<F>>,
    first: Result<Metrics<F>, SamplingError>,
    second_ms: u32,
    second_baseline: Option<SampleView>,
    second_end: Option<ReadingView<F>>,
    second: Result<Metrics<F>, SamplingError>,
    alone: Result<Metrics<F>, SamplingError>,
)
    requires
        Sampler::measures(before, between, first_ms, first_baseline, first_end, first),
        Sampler::measures(between, after, second_ms, second_baseline, second_end, second),
        Sampler::measures(
            other_before,
            other_after,
            second_ms,
            second_baseline,
            second_end,
            alone,
        ),
    ensures
        second == alone,
        after.window() == other_after.window(),
{
}

/// No snapshot holds a usage outside zero and one, whatever the counters and
/// the window.
pub proof fn lemma_snapshot_usage_in_range<F>(
    window_ms: u32,
    baseline: SampleView,
    end: SampleView,
    gauges: Gauges<F>,
)
    ensures
        snapshot_of(window_ms, baseline, end, gauges).wf(),
{
    lemma_usage_of_exact(elapsed(baseline.ecpu, end.ecpu), window_nanos(window_ms));
    lemma_usage_of_exact(elapsed(baseline.pcpu, end.pcpu), window_nanos(window_ms));
    lemma_usage_of_exact(elapsed(baseline.gpu, end.gpu), window_nanos(window_ms));
}

} // verus!

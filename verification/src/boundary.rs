//! The entry points for callers that hold resources by handle: a handle is
//! an owned box or nothing, and every failure reaches the caller as nothing.

use vstd::prelude::*;
use crate::counters::CounterSample;
use crate::descriptor::{describe, Capabilities, DescribeError, SocInfo};
use crate::metrics::Metrics;
use crate::sampler::{
    baseline_view, end_view, sample, Reading, Sampler, SamplingError, SourceStatus,
    DEFAULT_WINDOW_MS,
};

verus! {

/// Creates a sampler on the session that was opened with the counter
/// source: a handle to an idle sampler where the session is open, no handle
/// where it is not.
pub fn sampler_new(status: SourceStatus) -> (handle: Option<Box<Sampler>>)
    ensures
        handle is Some <==> status == SourceStatus::Ready,
        handle matches Some(sampler) ==> sampler.is_idle(),
{
    match Sampler::new(status) {
        Ok(sampler) => Some(Box::new(sampler)),
        Err(_) => None,
    }
}

/// Measures one window of the default length on the sampler behind the
/// handle. Gives the snapshot, whole, exactly where a sampler is there and
/// the window comes to one; else nothing.
pub fn sampler_get_metrics<F>(
    sampler: Option<&mut Sampler>,
    baseline: Option<CounterSample>,
    end: Option<Reading<F>>,
) -> (out: Option<Box<Metrics<F>>>)
    ensures
        out is Some <==> sampler is Some && sample(
            DEFAULT_WINDOW_MS,
            baseline_view(baseline),
            end_view(end),
        ) is Ok,
        out matches Some(m) ==> m.wf() && Ok::<Metrics<F>, SamplingError>(*m) == sample(
            DEFAULT_WINDOW_MS,
            baseline_view(baseline),
            end_view(end),
        ),
        sampler matches Some(s) ==> final(s).is_idle(),
{
    match sampler {
        Some(sampler) => match sampler.get_metrics(DEFAULT_WINDOW_MS, baseline, end) {
            Ok(m) => Some(Box::new(m)),
            Err(_) => None,
        },
        None => None,
    }
}

/// Releases a sampler: the handle is taken from the caller, who cannot use
/// it again, and what it held is dropped. With no handle there is nothing
/// to release.
pub fn sampler_free(sampler: Option<Box<Sampler>>) {
    let _released = sampler;
}

/// Releases a snapshot: the handle is taken from the caller, who cannot use
/// it again, and what it held is dropped. With no handle there is nothing
/// to release.
pub fn metrics_free<F>(metrics: Option<Box<Metrics<F>>>) {
    let _released = metrics;
}

/// Turns the outcome of one query of the capability source into a handle to
/// the descriptor, or into no handle where the query failed.
pub fn get_soc_info(report: Result<Capabilities, DescribeError>) -> (handle: Option<Box<SocInfo>>)
    ensures
        match report {
            Ok(caps) => handle matches Some(info) && info.describes(&caps) && info.wf(),
            Err(_) => handle is None,
        },
{
    match describe(report) {
        Ok(info) => Some(Box::new(info)),
        Err(_) => None,
    }
}

/// Releases a descriptor: the handle is taken from the caller, who cannot
/// use it again, and what it held is dropped. With no handle there is
/// nothing to release.
pub fn soc_info_free(info: Option<Box<SocInfo>>) {
    let _released = info;
}

} // verus!

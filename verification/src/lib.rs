//! Telemetry for a system-on-chip: a static capability descriptor with
//! fixed-capacity fields, and a sampling engine that reduces residency
//! counters collected over a window into one metrics snapshot.
//!
//! The library reads no hardware. Its callers hand it what the capability
//! source and the counter source reported, and get back the descriptor or
//! the snapshot that follows from it.

pub mod boundary;
pub mod counters;
pub mod descriptor;
pub mod metrics;
pub mod reduction;
pub mod sampler;

pub use boundary::{
    get_soc_info, metrics_free, sampler_free, sampler_get_metrics, sampler_new, soc_info_free,
};
pub use counters::{CounterSample, DomainCounters, StepResidency};
pub use descriptor::{describe, Capabilities, DescribeError, SocInfo};
pub use metrics::{Gauges, Memory, Metrics, Temperature, Usage};
pub use sampler::{InitError, Reading, Sampler, SamplingError, SourceStatus};

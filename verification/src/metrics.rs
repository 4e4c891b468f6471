//! The metrics snapshot and the gauges it is assembled from.
//!
//! Temperatures and power draw are measured by the counter source and only
//! carried through: their type `F` is the caller's, and nothing here
//! computes on it.

use vstd::prelude::*;

verus! {

/// Usage on this scale means that a domain was active for the whole window.
pub const FULL_USAGE_PPM: u32 = 1_000_000;

/// Average temperatures over the window, in degrees.
#[derive(Debug, Clone, Copy, PartialEq)]
pub struct Temperature<F> {
    pub cpu_temp_avg: F,
    pub gpu_temp_avg: F,
}

/// Memory and swap at the time of the snapshot, in bytes.
#[derive(Debug, Clone, Copy, PartialEq, Eq)]
pub struct Memory {
    pub ram_total: u64,
    pub ram_usage: u64,
    pub swap_total: u64,
    pub swap_usage: u64,
}

/// How a domain ran during the window.
#[derive(Debug, Clone, Copy, PartialEq, Eq)]
pub struct Usage {
    /// The mean of the frequencies of the domain's steps, each weighted by
    /// the time spent at it.
    pub frequency: u32,
    /// The part of the window during which the domain was not idle, in
    /// millionths.
    pub usage_ppm: u32,
}

/// What the counter source measures by itself at the end of a window.
#[derive(Debug, Clone, Copy, PartialEq)]
pub struct Gauges<F> {
    pub temp: Temperature<F>,
    pub memory: Memory,
    pub cpu_power: F,
    pub gpu_power: F,
    pub ane_power: F,
    pub all_power: F,
    pub sys_power: F,
    pub ram_power: F,
    pub gpu_ram_power: F,
}

/// The snapshot of one window.
#[derive(Debug, Clone, Copy, PartialEq)]
pub struct Metrics<F> {
    pub temp: Temperature<F>,
    pub memory: Memory,
    pub ecpu_usage: Usage,
    pub pcpu_usage: Usage,
    pub gpu_usage: Usage,
    pub cpu_power: F,
    pub gpu_power: F,
    pub ane_power: F,
    pub all_power: F,
    pub sys_power: F,
    pub ram_power: F,
    pub gpu_ram_power: F,
}

impl Usage {
    /// The usage is a part of the whole: at most a million millionths.
    pub open spec fn wf(&self) -> bool {
        self.usage_ppm <= FULL_USAGE_PPM
    }
}

impl<F> Metrics<F> {
    /// The usage of every domain is a part of the whole.
    pub open spec fn wf(&self) -> bool {
        &&& self.ecpu_usage.wf()
        &&& self.pcpu_usage.wf()
        &&& self.gpu_usage.wf()
    }

    /// The snapshot that joins the usage of the three domains with the
    /// gauges, each gauge as the source measured it.
    pub open spec fn assembled(ecpu: Usage, pcpu: Usage, gpu: Usage, gauges: Gauges<F>) -> Metrics<
        F,
    > {
        Metrics {
            temp: gauges.temp,
            memory: gauges.memory,
            ecpu_usage: ecpu,
            pcpu_usage: pcpu,
            gpu_usage: gpu,
            cpu_power: gauges.cpu_power,
            gpu_power: gauges.gpu_power,
            ane_power: gauges.ane_power,
            all_power: gauges.all_power,
            sys_power: gauges.sys_power,
            ram_power: gauges.ram_power,
            gpu_ram_power: gauges.gpu_ram_power,
        }
    }

    /// Joins the usage of the three domains with the gauges.
    pub fn assemble(ecpu: Usage, pcpu: Usage, gpu: Usage, gauges: Gauges<F>) -> (m: Metrics<F>)
        ensures
            m == Metrics::assembled(ecpu, pcpu, gpu, gauges),
    {
        Metrics {
            temp: gauges.temp,
            memory: gauges.memory,
            ecpu_usage: ecpu,
            pcpu_usage: pcpu,
            gpu_usage: gpu,
            cpu_power: gauges.cpu_power,
            gpu_power: gauges.gpu_power,
            ane_power: gauges.ane_power,
            all_power: gauges.all_power,
            sys_power: gauges.sys_power,
            ram_power: gauges.ram_power,
            gpu_ram_power: gauges.gpu_ram_power,
        }
    }
}

} // verus!

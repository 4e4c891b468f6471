use soc_telemetry::counters::{CounterSample, DomainCounters, StepResidency};
use soc_telemetry::sampler::snapshot;
use soc_telemetry::{
    Gauges, InitError, Memory, Metrics, Reading, Sampler, SamplingError, SourceStatus,
    Temperature, Usage,
};

const MS: u64 = 1_000_000;

fn domain(idle: u64, steps: &[(u32, u64)]) -> DomainCounters {
    DomainCounters {
        idle,
        steps: steps
            .iter()
            .map(|&(frequency, residency)| StepResidency { frequency, residency })
            .collect(),
    }
}

fn opening() -> CounterSample {
    CounterSample {
        ecpu: domain(7_000 * MS, &[(600, 1_000 * MS), (2424, 50 * MS)]),
        pcpu: domain(9_000 * MS, &[(660, 10 * MS), (3504, 20 * MS)]),
        gpu: domain(9_500 * MS, &[(444, 3 * MS), (1398, 0)]),
    }
}

fn ending() -> CounterSample {
    CounterSample {
        ecpu: domain(7_300 * MS, &[(600, 1_000 * MS + 150 * MS), (2424, 50 * MS + 50 * MS)]),
        pcpu: domain(9_000 * MS + 500 * MS, &[(660, 10 * MS), (3504, 20 * MS)]),
        gpu: domain(9_500 * MS + 125 * MS, &[(444, 3 * MS + 375 * MS), (1398, 0)]),
    }
}

fn gauges() -> Gauges<f32> {
    Gauges {
        temp: Temperature { cpu_temp_avg: 48.5, gpu_temp_avg: 41.25 },
        memory: Memory {
            ram_total: 17_179_869_184,
            ram_usage: 9_663_676_416,
            swap_total: 2_147_483_648,
            swap_usage: 268_435_456,
        },
        cpu_power: 1.5,
        gpu_power: 0.25,
        ane_power: 0.0,
        all_power: 2.0,
        sys_power: 7.75,
        ram_power: 0.5,
        gpu_ram_power: 0.125,
    }
}

fn reading(counters: CounterSample) -> Option<Reading<f32>> {
    Some(Reading { counters, gauges: gauges() })
}

fn sampler() -> Sampler {
    Sampler::new(SourceStatus::Ready).unwrap()
}

#[test]
fn sampler_is_created_on_an_open_session() {
    assert!(Sampler::new(SourceStatus::Ready).is_ok());
}

#[test]
fn each_failed_session_gives_its_error() {
    assert_eq!(Sampler::new(SourceStatus::Unsupported).err(), Some(InitError::Unsupported));
    assert_eq!(
        Sampler::new(SourceStatus::PermissionDenied).err(),
        Some(InitError::PermissionDenied)
    );
    assert_eq!(Sampler::new(SourceStatus::Busy).err(), Some(InitError::Busy));
}

#[test]
fn window_is_reduced_domain_by_domain() {
    let m = sampler().get_metrics(500, Some(opening()), reading(ending())).unwrap();
    // ecpu: 150 ms at 600 and 50 ms at 2424; idle for 300 of 500 ms.
    assert_eq!(
        m.ecpu_usage,
        Usage { frequency: (600 * 150 + 2424 * 50) / 200, usage_ppm: 400_000 }
    );
    assert_eq!(m.ecpu_usage.frequency, 1056);
    // pcpu: idle for the whole window.
    assert_eq!(m.pcpu_usage, Usage { frequency: 0, usage_ppm: 0 });
    // gpu: 375 ms at 444; idle for 125 of 500 ms.
    assert_eq!(m.gpu_usage, Usage { frequency: 444, usage_ppm: 750_000 });
}

#[test]
fn gauges_are_reported_as_the_source_measured_them() {
    let m = sampler().get_metrics(500, Some(opening()), reading(ending())).unwrap();
    let g = gauges();
    assert_eq!(m.temp, g.temp);
    assert_eq!(m.memory, g.memory);
    assert_eq!(m.cpu_power, 1.5);
    assert_eq!(m.gpu_power, 0.25);
    assert_eq!(m.ane_power, 0.0);
    assert_eq!(m.all_power, 2.0);
    assert_eq!(m.sys_power, 7.75);
    assert_eq!(m.ram_power, 0.5);
    assert_eq!(m.gpu_ram_power, 0.125);
    // Not the sum of the other rails: it is not recomputed.
    assert_ne!(m.all_power, 1.5 + 0.25 + 0.0 + 7.75 + 0.5 + 0.125);
}

#[test]
fn snapshot_after_create_has_memory_within_its_totals() {
    let mut s = Sampler::new(SourceStatus::Ready).unwrap();
    let m = s.get_metrics(500, Some(opening()), reading(ending())).unwrap();
    assert!(m.memory.ram_total >= m.memory.ram_usage);
    assert!(m.memory.swap_total >= m.memory.swap_usage);
    soc_telemetry::metrics_free(Some(Box::new(m)));
    soc_telemetry::sampler_free(Some(Box::new(s)));
}

#[test]
fn usage_stays_within_zero_and_one() {
    let mut raced = ending();
    raced.ecpu.idle += 400 * MS; // idle for 700 ms of a window of 500
    let m = sampler().get_metrics(500, Some(opening()), reading(raced)).unwrap();
    assert_eq!(m.ecpu_usage.usage_ppm, 0);
    for window_ms in [0, 1, 125, 500, 501, u32::MAX] {
        let m = sampler().get_metrics(window_ms, Some(opening()), reading(ending())).unwrap();
        for usage in [m.ecpu_usage, m.pcpu_usage, m.gpu_usage] {
            assert!(usage.usage_ppm <= 1_000_000);
        }
    }
}

#[test]
fn window_length_scales_the_usage() {
    let m = sampler().get_metrics(1000, Some(opening()), reading(ending())).unwrap();
    assert_eq!(m.ecpu_usage.usage_ppm, 700_000);
    assert_eq!(m.ecpu_usage.frequency, 1056);
    let longest = sampler().get_metrics(u32::MAX, Some(opening()), reading(ending())).unwrap();
    assert_eq!(longest.gpu_usage.usage_ppm, 999_999);
}

#[test]
fn two_phases_give_what_one_call_gives() {
    let mut s = sampler();
    assert_eq!(s.begin(500, Some(opening())), Ok(()));
    let two = s.finish(reading(ending()));
    let one = sampler().get_metrics(500, Some(opening()), reading(ending()));
    assert_eq!(two, one);
    assert!(two.is_ok());
}

#[test]
fn second_window_inherits_nothing_from_the_first() {
    let later = CounterSample {
        ecpu: domain(7_300 * MS + 500 * MS, &[(600, 1_150 * MS), (2424, 100 * MS)]),
        pcpu: domain(9_500 * MS, &[(660, 10 * MS + 250 * MS), (3504, 20 * MS + 250 * MS)]),
        gpu: domain(9_625 * MS + 500 * MS, &[(444, 378 * MS), (1398, 0)]),
    };
    let mut s = sampler();
    let first = s.get_metrics(500, Some(opening()), reading(ending())).unwrap();
    let second = s.get_metrics(500, Some(ending()), reading(later.clone())).unwrap();
    let alone = sampler().get_metrics(500, Some(ending()), reading(later)).unwrap();
    assert_eq!(second, alone);
    assert_eq!(second.ecpu_usage, Usage { frequency: 0, usage_ppm: 0 });
    assert_eq!(second.pcpu_usage, Usage { frequency: 2082, usage_ppm: 1_000_000 });
    assert_ne!(first.ecpu_usage, second.ecpu_usage);
}

#[test]
fn same_window_twice_gives_the_same_snapshot() {
    let mut s = sampler();
    let first = s.get_metrics(500, Some(opening()), reading(ending()));
    let second = s.get_metrics(500, Some(opening()), reading(ending()));
    assert_eq!(first, second);
}

#[test]
fn ending_a_window_that_was_not_opened_fails() {
    let mut s = sampler();
    assert_eq!(s.finish(reading(ending())), Err(SamplingError::WindowNotOpen));
    assert_eq!(s.finish(None::<Reading<f32>>), Err(SamplingError::WindowNotOpen));
}

#[test]
fn window_is_closed_by_its_end_whatever_the_outcome() {
    let mut s = sampler();
    assert_eq!(s.begin(500, Some(opening())), Ok(()));
    assert!(s.finish(reading(ending())).is_ok());
    assert_eq!(s.finish(reading(ending())), Err(SamplingError::WindowNotOpen));
    assert_eq!(s.begin(500, Some(opening())), Ok(()));
    assert_eq!(s.finish(None::<Reading<f32>>), Err(SamplingError::SessionLost));
    assert_eq!(s.finish(reading(ending())), Err(SamplingError::WindowNotOpen));
    assert_eq!(s.begin(500, Some(ending())), Ok(()));
    assert_eq!(s.finish(reading(opening())), Err(SamplingError::CountersUnreadable));
    assert_eq!(s.finish(reading(ending())), Err(SamplingError::WindowNotOpen));
}

#[test]
fn reopening_gives_up_the_window_that_was_open() {
    let mut s = sampler();
    assert_eq!(s.begin(100, Some(ending())), Ok(()));
    assert_eq!(s.begin(500, Some(opening())), Ok(()));
    let m = s.finish(reading(ending())).unwrap();
    assert_eq!(m.ecpu_usage, Usage { frequency: 1056, usage_ppm: 400_000 });
}

#[test]
fn lost_session_gives_no_snapshot() {
    let out: Result<Metrics<f32>, SamplingError> =
        sampler().get_metrics(500, Some(opening()), None);
    assert_eq!(out, Err(SamplingError::SessionLost));
    assert_eq!(
        sampler().get_metrics(500, None, reading(ending())),
        Err(SamplingError::SessionLost)
    );
    assert_eq!(
        sampler().get_metrics(500, None, None::<Reading<f32>>),
        Err(SamplingError::SessionLost)
    );
}

#[test]
fn window_does_not_open_without_a_baseline() {
    let mut s = sampler();
    assert_eq!(s.begin(500, None), Err(SamplingError::SessionLost));
    assert_eq!(s.finish(reading(ending())), Err(SamplingError::WindowNotOpen));
    // A window that stood open is given up as well.
    assert_eq!(s.begin(500, Some(opening())), Ok(()));
    assert_eq!(s.begin(500, None), Err(SamplingError::SessionLost));
    assert_eq!(s.finish(reading(ending())), Err(SamplingError::WindowNotOpen));
}

#[test]
fn sampling_can_be_tried_again_after_a_failure() {
    let mut s = sampler();
    assert_eq!(
        s.get_metrics(500, Some(opening()), None::<Reading<f32>>),
        Err(SamplingError::SessionLost)
    );
    assert!(s.get_metrics(500, Some(opening()), reading(ending())).is_ok());
}

#[test]
fn counter_that_went_backwards_is_unreadable() {
    let mut idle_back = ending();
    idle_back.gpu.idle = opening().gpu.idle - 1;
    assert_eq!(
        sampler().get_metrics(500, Some(opening()), reading(idle_back)),
        Err(SamplingError::CountersUnreadable)
    );
    let mut step_back = ending();
    step_back.pcpu.steps[1].residency -= 1;
    assert_eq!(
        sampler().get_metrics(500, Some(opening()), reading(step_back)),
        Err(SamplingError::CountersUnreadable)
    );
}

#[test]
fn changed_steps_are_unreadable() {
    let mut fewer = ending();
    fewer.ecpu.steps.pop();
    assert_eq!(
        sampler().get_metrics(500, Some(opening()), reading(fewer)),
        Err(SamplingError::CountersUnreadable)
    );
    let mut other = ending();
    other.ecpu.steps[0].frequency = 601;
    assert_eq!(
        sampler().get_metrics(500, Some(opening()), reading(other)),
        Err(SamplingError::CountersUnreadable)
    );
}

#[test]
fn residency_too_large_to_reduce_is_unreadable() {
    let zero = CounterSample {
        ecpu: domain(0, &[(600, 0), (2424, 0)]),
        pcpu: domain(0, &[]),
        gpu: domain(0, &[]),
    };
    let huge = CounterSample {
        ecpu: domain(0, &[(600, u64::MAX), (2424, 1)]),
        pcpu: domain(0, &[]),
        gpu: domain(0, &[]),
    };
    assert_eq!(
        sampler().get_metrics(500, Some(zero), reading(huge)),
        Err(SamplingError::CountersUnreadable)
    );
}

#[test]
fn time_that_passed_is_measured_counter_by_counter() {
    let open = domain(40, &[(600, 10), (912, 20)]);
    let end = domain(45, &[(600, 10), (912, 27)]);
    assert_eq!(end.since(&open), Some(domain(5, &[(600, 0), (912, 7)])));
    assert_eq!(open.since(&open), Some(domain(0, &[(600, 0), (912, 0)])));
    assert_eq!(open.since(&end), None);
    assert_eq!(domain(45, &[(600, 10)]).since(&open), None);
    assert_eq!(domain(45, &[(600, 10), (913, 27)]).since(&open), None);
    assert_eq!(domain(0, &[]).since(&domain(0, &[])), Some(domain(0, &[])));
}

#[test]
fn snapshot_is_whole_or_absent() {
    assert!(snapshot(500, &opening(), &ending(), gauges()).is_some());
    assert_eq!(snapshot(500, &ending(), &opening(), gauges()), None);
}

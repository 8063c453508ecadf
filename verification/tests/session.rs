// Session lifecycle scenarios: start/stop transitions, the read path's
// drain-once semantics, the runner's failure policy, and the tick governor.

use smaragdine::clock::now_ms;
use smaragdine::cpu::sample_cpus;
use smaragdine::model::{AccessError, CpuReading, Sample, SamplingError};
use smaragdine::rapl::sample_rapl;
use smaragdine::sampler::{remaining_sleep, Sampler};
use smaragdine::task::sample_tasks;

fn cpu_sample(timestamp: u64) -> Sample {
    let reading = CpuReading {
        cpu: 0,
        socket: 0,
        user: Some(100),
        nice: Some(0),
        system: Some(50),
        idle: Some(1000),
        iowait: None,
        irq: None,
        softirq: None,
        steal: None,
        guest: None,
        guest_nice: None,
    };
    sample_cpus(timestamp, Ok(vec![reading])).unwrap()
}

#[test]
fn start_then_immediate_read_is_all_empty() {
    let mut sampler = Sampler::new(4);
    let plan = sampler.start(Some(1234), None);
    assert!(plan.is_some());
    // Still running: the read is a no-op returning no data, not an error.
    assert!(sampler.read().is_none());
    // The session is unaffected by the rejected read.
    assert!(sampler.is_running);
}

#[test]
fn read_after_stop_partitions_and_second_read_is_empty() {
    let mut sampler = Sampler::new(4);
    sampler.start(Some(1234), Some(10));
    assert!(sampler.runner_step(Ok(cpu_sample(5))));
    assert!(sampler.runner_step(Ok(cpu_sample(6))));
    let rapl = sample_rapl(7, Ok(vec![])).unwrap();
    assert!(sampler.runner_step(Ok(rapl)));
    sampler.stop();
    let data = sampler.read().unwrap();
    assert_eq!(data.cpu.len(), 2);
    assert_eq!(data.cpu[0].timestamp, 5);
    assert_eq!(data.cpu[1].timestamp, 6);
    assert_eq!(data.rapl.len(), 1);
    assert_eq!(data.process.len(), 0);
    assert_eq!(data.nvml.len(), 0);
    // Idempotent drain: an immediate second read is entirely empty.
    let again = sampler.read().unwrap();
    assert_eq!(again.cpu.len(), 0);
    assert_eq!(again.process.len(), 0);
    assert_eq!(again.rapl.len(), 0);
    assert_eq!(again.nvml.len(), 0);
}

#[test]
fn start_twice_is_a_no_op() {
    let mut sampler = Sampler::with_nvml(4);
    let first = sampler.start(Some(42), Some(100)).unwrap();
    assert_eq!(first.pid, 42);
    assert_eq!(first.period_ms, 100);
    assert!(first.with_nvml);
    // The second start spawns nothing and keeps the first call's effect.
    let second = sampler.start(Some(99), Some(9999));
    assert!(second.is_none());
    assert!(sampler.is_running);
    assert_eq!(sampler.period_ms, 4);
}

#[test]
fn start_uses_default_period_without_override() {
    let mut sampler = Sampler::new(250);
    let plan = sampler.start(Some(7), None).unwrap();
    assert_eq!(plan.period_ms, 250);
    assert_eq!(plan.pid, 7);
    assert!(!plan.with_nvml);
}

#[test]
fn start_without_pid_is_rejected_while_idle() {
    let mut sampler = Sampler::new(4);
    // The pid is required: without one the start is rejected, nothing is
    // spawned and the session stays idle.
    assert!(sampler.start(None, Some(10)).is_none());
    assert!(!sampler.is_running);
    // A later start with a pid succeeds normally.
    assert!(sampler.start(Some(1), None).is_some());
    assert!(sampler.is_running);
    // While running, a pid-less start is the usual no-op.
    assert!(sampler.start(None, None).is_none());
    assert!(sampler.is_running);
}

#[test]
fn stop_while_idle_is_idempotent() {
    let mut sampler = Sampler::new(4);
    sampler.stop();
    assert!(!sampler.is_running);
    sampler.stop();
    assert!(!sampler.is_running);
}

#[test]
fn not_retryable_stops_only_that_runner() {
    let mut sampler = Sampler::new(4);
    sampler.start(Some(1), None);
    let outcome = sample_cpus(1, Err(AccessError::PermissionDenied));
    assert!(outcome.is_err());
    let keep_going = sampler.runner_step(outcome);
    assert!(!keep_going);
    // The session itself stays up.
    assert!(sampler.is_running);
}

#[test]
fn retryable_keeps_the_runner_going() {
    let mut sampler = Sampler::new(4);
    sampler.start(Some(1), None);
    let outcome = sample_cpus(1, Err(AccessError::Other));
    let keep_going = sampler.runner_step(outcome);
    assert!(keep_going);
    assert!(sampler.is_running);
}

#[test]
fn requires_termination_ends_the_session() {
    let mut sampler = Sampler::new(4);
    sampler.start(Some(424242), None);
    // Another source had already buffered a snapshot.
    assert!(sampler.runner_step(Ok(cpu_sample(3))));
    // The monitored pid is gone: the task reader classifies the not-found
    // failure as requiring termination...
    let outcome = sample_tasks(424242, 4, Err(AccessError::NotFound));
    match &outcome {
        Err(SamplingError::RequiresTermination(_)) => {}
        _ => panic!("expected a termination-class failure"),
    }
    // ...and the runner step both stops this runner and ends the session.
    let keep_going = sampler.runner_step(outcome);
    assert!(!keep_going);
    assert!(!sampler.is_running);
    // A subsequent read returns what the other sources had buffered, with
    // no task entries beyond the failure.
    let data = sampler.read().unwrap();
    assert_eq!(data.cpu.len(), 1);
    assert_eq!(data.process.len(), 0);
}

#[test]
fn session_timestamps_lie_within_the_session() {
    let t0 = now_ms();
    let mut sampler = Sampler::new(4);
    let plan = sampler.start(Some(1), Some(4)).unwrap();
    assert!(sampler.runner_step(Ok(cpu_sample(now_ms()))));
    let rapl = sample_rapl(now_ms(), Ok(vec![])).unwrap();
    assert!(sampler.runner_step(Ok(rapl)));
    sampler.stop();
    let t1 = now_ms();
    let data = sampler.read().unwrap();
    for s in &data.cpu {
        assert!(s.timestamp >= t0);
        assert!(s.timestamp <= t1 + plan.period_ms);
    }
    for s in &data.rapl {
        assert!(s.timestamp >= t0);
        assert!(s.timestamp <= t1 + plan.period_ms);
    }
}

#[test]
fn remaining_sleep_is_the_period_remainder() {
    assert_eq!(remaining_sleep(100, 30), 70);
    assert_eq!(remaining_sleep(100, 100), 0);
    assert_eq!(remaining_sleep(100, 250), 0);
    assert_eq!(remaining_sleep(0, 0), 0);
}

//! CPU source reader: turns the kernel's per-CPU time counters into a
//! `CpuSample` and classifies a failure to read them. The counters
//! themselves come from the kernel-statistics interface, read by the caller.

use vstd::prelude::*;
use crate::model::{AccessError, CpuReading, CpuSample, Data, Sample, SamplingError};

verus! {

/// Kernel time counters of one logical CPU, in ticks, as the
/// kernel-statistics interface reports them: the four base counters are
/// always present, the rest only on platforms that expose them.
#[derive(Clone, Copy, Debug, PartialEq)]
pub struct CpuTicks {
    pub user: u64,
    pub nice: u64,
    pub system: u64,
    pub idle: u64,
    pub iowait: Option<u64>,
    pub irq: Option<u64>,
    pub softirq: Option<u64>,
    pub steal: Option<u64>,
    pub guest: Option<u64>,
    pub guest_nice: Option<u64>,
}

/// A tick counter narrowed to the 32-bit wire field: the low 32 bits.
pub open spec fn trunc32(x: u64) -> u32 {
    (x % 0x1_0000_0000) as u32
}

/// `trunc32` lifted over an absent counter.
pub open spec fn trunc32_opt(x: Option<u64>) -> Option<u32> {
    match x {
        Some(j) => Some(trunc32(j)),
        None => None,
    }
}

/// The wire reading that one CPU's counters become.
pub open spec fn spec_cpu_reading(cpu: u32, socket: u32, t: CpuTicks) -> CpuReading {
    CpuReading {
        cpu,
        socket,
        user: Some(trunc32(t.user)),
        nice: Some(trunc32(t.nice)),
        system: Some(trunc32(t.system)),
        idle: Some(trunc32(t.idle)),
        iowait: trunc32_opt(t.iowait),
        irq: trunc32_opt(t.irq),
        softirq: trunc32_opt(t.softirq),
        steal: trunc32_opt(t.steal),
        guest: trunc32_opt(t.guest),
        guest_nice: trunc32_opt(t.guest_nice),
    }
}

/// Narrows one counter to the wire width.
fn to_jiffies32(x: u64) -> (r: u32)
    ensures
        r == trunc32(x),
{
    let low: u64 = x % 0x1_0000_0000;
    low as u32
}

/// Narrows an optional counter, keeping absence distinct from zero.
fn to_jiffies32_opt(x: Option<u64>) -> (r: Option<u32>)
    ensures
        r == trunc32_opt(x),
{
    match x {
        Some(j) => Some(to_jiffies32(j)),
        None => None,
    }
}

/// Builds the wire reading for one logical CPU from its index, its physical
/// package id, and its time counters.
pub fn cpu_stat_to_proto(cpu: u32, socket: u32, stat: &CpuTicks) -> (r: CpuReading)
    ensures
        r == spec_cpu_reading(cpu, socket, *stat),
{
    CpuReading {
        cpu,
        socket,
        user: Some(to_jiffies32(stat.user)),
        nice: Some(to_jiffies32(stat.nice)),
        system: Some(to_jiffies32(stat.system)),
        idle: Some(to_jiffies32(stat.idle)),
        iowait: to_jiffies32_opt(stat.iowait),
        irq: to_jiffies32_opt(stat.irq),
        softirq: to_jiffies32_opt(stat.softirq),
        steal: to_jiffies32_opt(stat.steal),
        guest: to_jiffies32_opt(stat.guest),
        guest_nice: to_jiffies32_opt(stat.guest_nice),
    }
}

/// Converts every logical CPU's counters, in order: entry `i` is CPU `i`
/// paired with its package id `sockets[i]`.
pub fn read_cpus(stats: &Vec<CpuTicks>, sockets: &Vec<u32>) -> (r: Vec<CpuReading>)
    requires
        stats@.len() == sockets@.len(),
        stats@.len() <= u32::MAX,
    ensures
        r@.len() == stats@.len(),
        forall|i: int|
            0 <= i < r@.len() ==> r@[i] == spec_cpu_reading(i as u32, sockets@[i], stats@[i]),
{
    let mut r: Vec<CpuReading> = Vec::new();
    let mut i: usize = 0;
    while i < stats.len()
        invariant
            i <= stats@.len(),
            stats@.len() == sockets@.len(),
            stats@.len() <= u32::MAX,
            r@.len() == i,
            forall|j: int|
                0 <= j < i ==> r@[j] == spec_cpu_reading(j as u32, sockets@[j], stats@[j]),
        decreases stats@.len() - i,
    {
        let reading = cpu_stat_to_proto(i as u32, sockets[i], &stats[i]);
        r.push(reading);
        i = i + 1;
    }
    r
}

/// Assembles the CPU snapshot, or classifies why the counters could not be
/// read: a permission or not-found failure means the counter source is gone
/// for this run (not retryable); anything else is presumed transient.
pub fn sample_cpus(timestamp: u64, stats: Result<Vec<CpuReading>, AccessError>) -> (r: Result<
    Sample,
    SamplingError,
>)
    ensures
        match stats {
            Ok(readings) => r matches Ok(s) && s.data matches Some(d) && d matches Data::Cpu(c)
                && c.timestamp == timestamp && c.reading == readings,
            Err(AccessError::PermissionDenied) | Err(AccessError::NotFound) => r matches Err(e)
                && e matches SamplingError::NotRetryable(m) && m@ == "/proc/stat could not be read"@,
            Err(AccessError::Other) => r matches Err(e) && e matches SamplingError::Retryable(m)
                && m@ == "unable to read cpus"@,
        },
{
    match stats {
        Ok(readings) => Ok(
            Sample { data: Some(Data::Cpu(CpuSample { timestamp, reading: readings })) },
        ),
        Err(AccessError::PermissionDenied) | Err(AccessError::NotFound) => Err(
            SamplingError::NotRetryable("/proc/stat could not be read".to_owned()),
        ),
        Err(AccessError::Other) => Err(SamplingError::Retryable("unable to read cpus".to_owned())),
    }
}

} // verus!

//! Data model: per-source readings, per-source snapshots, the tagged sample
//! union that flows through the buffer, and the three-tier failure taxonomy.

use vstd::prelude::*;

verus! {

/// Kernel-time counters for one logical CPU. The four base counters are
/// always reported; the remaining ones are absent on platforms that do not
/// expose them, and absence is kept distinct from zero.
#[derive(Clone, Debug, PartialEq)]
pub struct CpuReading {
    pub cpu: u32,
    pub socket: u32,
    pub user: Option<u32>,
    pub nice: Option<u32>,
    pub system: Option<u32>,
    pub idle: Option<u32>,
    pub iowait: Option<u32>,
    pub irq: Option<u32>,
    pub softirq: Option<u32>,
    pub steal: Option<u32>,
    pub guest: Option<u32>,
    pub guest_nice: Option<u32>,
}

/// Scheduling counters for one OS thread of the monitored process. When the
/// thread's last-seen processor is unknown, only the task id is populated.
#[derive(Clone, Debug, PartialEq)]
pub struct TaskReading {
    pub task_id: u32,
    pub cpu: u32,
    pub user: Option<u32>,
    pub system: Option<u32>,
}

/// Energy counters for one energy-accountable socket, in microjoules.
/// A missing sub-domain (no DRAM rail, say) is absent, not zero.
#[derive(Clone, Debug, PartialEq)]
pub struct RaplReading {
    pub socket: u32,
    pub package: Option<u64>,
    pub dram: Option<u64>,
}

/// Power reading for one enumerated GPU device.
#[derive(Clone, Debug, PartialEq)]
pub struct NvmlReading {
    pub index: u32,
    pub bus_id: String,
    pub power_usage: Option<u32>,
}

/// One capture of all logical CPUs' counters, stamped in milliseconds since
/// the epoch.
#[derive(Clone, Debug, PartialEq)]
pub struct CpuSample {
    pub timestamp: u64,
    pub reading: Vec<CpuReading>,
}

/// One capture of the monitored process's per-thread counters.
#[derive(Clone, Debug, PartialEq)]
pub struct ProcessSample {
    pub timestamp: u64,
    pub reading: Vec<TaskReading>,
}

/// One capture of the per-socket energy counters.
#[derive(Clone, Debug, PartialEq)]
pub struct RaplSample {
    pub timestamp: u64,
    pub reading: Vec<RaplReading>,
}

/// One capture of the enumerated GPU devices' power draw.
#[derive(Clone, Debug, PartialEq)]
pub struct NvmlSample {
    pub timestamp: u64,
    pub reading: Vec<NvmlReading>,
}

/// The tagged union over the four snapshot kinds.
#[derive(Clone, Debug, PartialEq)]
pub enum Data {
    Cpu(CpuSample),
    Process(ProcessSample),
    Rapl(RaplSample),
    Nvml(NvmlSample),
}

/// One buffered sample. The payload is optional, mirroring the wire format;
/// the read path skips a sample that carries no payload.
#[derive(Clone, Debug, PartialEq)]
pub struct Sample {
    pub data: Option<Data>,
}

/// How a source reader's failure is handled by the periodic runner:
/// `NotRetryable` disables that source alone, `RequiresTermination` ends the
/// whole session, `Retryable` is logged and the source is tried again at the
/// next tick. The message is for humans; no policy decision reads it.
#[derive(Clone, Debug, PartialEq)]
pub enum SamplingError {
    NotRetryable(String),
    RequiresTermination(String),
    Retryable(String),
}

/// Why an underlying counter source could not be read, as far as the failure
/// taxonomy cares: the two conditions that mark a source (or the monitored
/// process) as gone for good, and everything else, presumed transient.
#[derive(Clone, Copy, Debug, PartialEq, Eq, Structural)]
pub enum AccessError {
    PermissionDenied,
    NotFound,
    Other,
}

} // verus!

//! Single-target telemetry collector core: source readers' snapshot assembly
//! and failure classification, the periodic-runner tick policy, and the
//! session controller with its ordered sample buffer.

pub mod model;
pub mod clock;
pub mod cpu;
pub mod task;
pub mod text;
pub mod rapl;
pub mod nvml;
pub mod sampler;

//! GPU source reader: assembles the `NvmlSample` from the per-device power
//! readings, or classifies a failure to enumerate the devices. The device
//! queries go through the GPU-management library, run by the caller.

use vstd::prelude::*;
use crate::model::{Data, NvmlReading, NvmlSample, Sample, SamplingError};

verus! {

/// Builds the wire reading for one enumerated device.
pub fn nvml_reading(index: u32, bus_id: String, power_usage: Option<u32>) -> (r: NvmlReading)
    ensures
        r.index == index,
        r.bus_id == bus_id,
        r.power_usage == power_usage,
{
    NvmlReading { index, bus_id, power_usage }
}

/// Assembles the GPU snapshot, or classifies a failure to query the device
/// count: the management library is then presumed unusable for this run
/// (not retryable), carrying the library's own description of the failure.
pub fn sample_nvml(timestamp: u64, devices: Result<Vec<NvmlReading>, String>) -> (r: Result<
    Sample,
    SamplingError,
>)
    ensures
        match devices {
            Ok(readings) => r matches Ok(s) && s.data matches Some(d) && d matches Data::Nvml(g)
                && g.timestamp == timestamp && g.reading == readings,
            Err(m) => r == Err::<Sample, SamplingError>(SamplingError::NotRetryable(m)),
        },
{
    match devices {
        Ok(readings) => Ok(
            Sample { data: Some(Data::Nvml(NvmlSample { timestamp, reading: readings })) },
        ),
        Err(m) => Err(SamplingError::NotRetryable(m)),
    }
}

} // verus!

//! Task source reader: turns the monitored process's per-thread scheduling
//! counters into a `ProcessSample` and classifies a failure to enumerate
//! them. Losing the process's task directory altogether means the monitored
//! process is gone, which must end the whole session.

use vstd::prelude::*;
use crate::model::{AccessError, Data, ProcessSample, Sample, SamplingError, TaskReading};
use crate::cpu::trunc32;

verus! {

/// Scheduling counters of one OS thread, as the per-task statistics
/// interface reports them: the thread id, the processor it last ran on if
/// known, and its user and system time in ticks.
#[derive(Clone, Copy, Debug, PartialEq)]
pub struct TaskStat {
    pub pid: i32,
    pub processor: Option<i32>,
    pub utime: u64,
    pub stime: u64,
}

/// The wire reading that one thread's counters become: with no known
/// processor only the task id is populated.
pub open spec fn spec_task_reading(stat: TaskStat) -> TaskReading {
    match stat.processor {
        Some(cpu) => TaskReading {
            task_id: stat.pid as u32,
            cpu: cpu as u32,
            user: Some(trunc32(stat.utime)),
            system: Some(trunc32(stat.stime)),
        },
        None => TaskReading { task_id: stat.pid as u32, cpu: 0, user: None, system: None },
    }
}

/// Builds the wire reading for one thread. Task and processor ids are
/// nonnegative as the OS hands them out.
pub fn task_stat_to_proto(stat: &TaskStat) -> (r: TaskReading)
    requires
        stat.pid >= 0,
        stat.processor matches Some(cpu) ==> cpu >= 0,
    ensures
        r == spec_task_reading(*stat),
{
    match stat.processor {
        Some(cpu) => TaskReading {
            task_id: stat.pid as u32,
            cpu: cpu as u32,
            user: Some(((stat.utime % 0x1_0000_0000) as u32)),
            system: Some(((stat.stime % 0x1_0000_0000) as u32)),
        },
        None => TaskReading { task_id: stat.pid as u32, cpu: 0, user: None, system: None },
    }
}

/// Converts every surviving thread's counters, in enumeration order.
pub fn read_tasks(stats: &Vec<TaskStat>) -> (r: Vec<TaskReading>)
    requires
        forall|i: int|
            0 <= i < stats@.len() ==> stats@[i].pid >= 0 && (stats@[i].processor matches Some(cpu)
                ==> cpu >= 0),
    ensures
        r@.len() == stats@.len(),
        forall|i: int| 0 <= i < r@.len() ==> r@[i] == spec_task_reading(stats@[i]),
{
    let mut r: Vec<TaskReading> = Vec::new();
    let mut i: usize = 0;
    while i < stats.len()
        invariant
            i <= stats@.len(),
            r@.len() == i,
            forall|j: int|
                0 <= j < stats@.len() ==> stats@[j].pid >= 0 && (stats@[j].processor matches Some(
                    cpu,
                ) ==> cpu >= 0),
            forall|j: int| 0 <= j < i ==> r@[j] == spec_task_reading(stats@[j]),
        decreases stats@.len() - i,
    {
        let reading = task_stat_to_proto(&stats[i]);
        r.push(reading);
        i = i + 1;
    }
    r
}

/// Assembles the task snapshot, or classifies why the threads could not be
/// enumerated: a permission or not-found failure on the task directory means
/// the monitored process itself is dead or inaccessible, so the session must
/// terminate; anything else is presumed transient.
pub fn sample_tasks(pid: i32, timestamp: u64, tasks: Result<Vec<TaskReading>, AccessError>) -> (r:
    Result<Sample, SamplingError>)
    ensures
        match tasks {
            Ok(readings) => r matches Ok(s) && s.data matches Some(d) && d matches Data::Process(p)
                && p.timestamp == timestamp && p.reading == readings,
            Err(AccessError::PermissionDenied) | Err(AccessError::NotFound) => r matches Err(e)
                && e matches SamplingError::RequiresTermination(m) && m@
                == "/proc/[pid]/task could not be read"@,
            Err(AccessError::Other) => r matches Err(e) && e matches SamplingError::Retryable(m)
                && m@ == "unable to read tasks"@,
        },
{
    match tasks {
        Ok(readings) => Ok(
            Sample { data: Some(Data::Process(ProcessSample { timestamp, reading: readings })) },
        ),
        Err(AccessError::PermissionDenied) | Err(AccessError::NotFound) => Err(
            SamplingError::RequiresTermination("/proc/[pid]/task could not be read".to_owned()),
        ),
        Err(AccessError::Other) => Err(SamplingError::Retryable("unable to read tasks".to_owned())),
    }
}

} // verus!

//! Session controller and aggregation buffer: the start/stop state machine,
//! the insertion-ordered sample buffer the runners feed, the drain that
//! partitions buffered samples by kind, and the periodic runner's per-tick
//! policy over the three-tier failure taxonomy.
//!
//! The controller here is the sequential core of the session: the threads,
//! the shared flag and the channel plumbing around it live with the caller,
//! which funnels every state change through these methods.

use vstd::prelude::*;
use crate::model::{
    CpuSample, Data, NvmlSample, ProcessSample, RaplSample, Sample, SamplingError,
};

verus! {

/// The drained result set: the buffered snapshots partitioned by source
/// kind, each kind keeping its internal enqueue order. Cross-kind
/// interleaving is not reconstructed.
pub struct DataSet {
    pub cpu: Vec<CpuSample>,
    pub process: Vec<ProcessSample>,
    pub rapl: Vec<RaplSample>,
    pub nvml: Vec<NvmlSample>,
}

/// The CPU snapshots of `buf`, in buffer order.
pub open spec fn cpu_entries(buf: Seq<Sample>) -> Seq<CpuSample>
    decreases buf.len(),
{
    if buf.len() == 0 {
        Seq::empty()
    } else {
        let rest = cpu_entries(buf.drop_last());
        match buf.last().data {
            Some(Data::Cpu(c)) => rest.push(c),
            _ => rest,
        }
    }
}

/// The task snapshots of `buf`, in buffer order.
pub open spec fn process_entries(buf: Seq<Sample>) -> Seq<ProcessSample>
    decreases buf.len(),
{
    if buf.len() == 0 {
        Seq::empty()
    } else {
        let rest = process_entries(buf.drop_last());
        match buf.last().data {
            Some(Data::Process(p)) => rest.push(p),
            _ => rest,
        }
    }
}

/// The energy snapshots of `buf`, in buffer order.
pub open spec fn rapl_entries(buf: Seq<Sample>) -> Seq<RaplSample>
    decreases buf.len(),
{
    if buf.len() == 0 {
        Seq::empty()
    } else {
        let rest = rapl_entries(buf.drop_last());
        match buf.last().data {
            Some(Data::Rapl(e)) => rest.push(e),
            _ => rest,
        }
    }
}

/// The GPU snapshots of `buf`, in buffer order.
pub open spec fn nvml_entries(buf: Seq<Sample>) -> Seq<NvmlSample>
    decreases buf.len(),
{
    if buf.len() == 0 {
        Seq::empty()
    } else {
        let rest = nvml_entries(buf.drop_last());
        match buf.last().data {
            Some(Data::Nvml(g)) => rest.push(g),
            _ => rest,
        }
    }
}

/// What `start` tells the caller to launch: one periodic runner per enabled
/// source, each sampling the given pid (the task source) at the given
/// period, plus a GPU runner when the management library is available.
#[derive(Clone, Copy, Debug, PartialEq)]
pub struct SpawnPlan {
    pub pid: i32,
    pub period_ms: u64,
    pub with_nvml: bool,
}

/// One sampling session's state: whether runners should keep ticking, the
/// configured default period, whether the GPU source is enabled, and the
/// insertion-ordered buffer every runner feeds.
pub struct Sampler {
    pub nvml: bool,
    pub period_ms: u64,
    pub is_running: bool,
    pub buffer: Vec<Sample>,
}

impl Sampler {
    /// A fresh idle controller without the GPU source, collecting at the
    /// given default period.
    pub fn new(period_millis: u64) -> (s: Sampler)
        ensures
            !s.nvml,
            s.period_ms == period_millis,
            !s.is_running,
            s.buffer@ == Seq::<Sample>::empty(),
    {
        Sampler { nvml: false, period_ms: period_millis, is_running: false, buffer: Vec::new() }
    }

    /// A fresh idle controller with the GPU source enabled; the caller holds
    /// on to the management library handle it initialized.
    pub fn with_nvml(period_millis: u64) -> (s: Sampler)
        ensures
            s.nvml,
            s.period_ms == period_millis,
            !s.is_running,
            s.buffer@ == Seq::<Sample>::empty(),
    {
        Sampler { nvml: true, period_ms: period_millis, is_running: false, buffer: Vec::new() }
    }

    /// Begins a session: in the idle state, given a pid, this marks the
    /// session running and tells the caller what to spawn, with the explicit
    /// period override or else the configured default. Validating that the
    /// pid is present is part of the transition: a start without one while
    /// idle is rejected — nothing is spawned and the session stays idle. A
    /// second call without an intervening stop is a no-op that changes
    /// nothing — the effective period and the running source set remain
    /// those of the first call — and spawns nothing. A pid that is given
    /// must fit the OS process-id width.
    pub fn start(&mut self, pid: Option<u64>, period: Option<u64>) -> (plan: Option<SpawnPlan>)
        requires
            !old(self).is_running ==> (pid matches Some(p) ==> p <= 0x7FFF_FFFF),
        ensures
            old(self).is_running ==> *final(self) == *old(self) && plan is None,
            !old(self).is_running && pid is None ==> *final(self) == *old(self) && plan is None,
            !old(self).is_running ==> (pid matches Some(p) ==> (plan matches Some(sp) && (
            final(self).is_running && final(self).nvml == old(self).nvml && final(self).period_ms
                == old(self).period_ms && final(self).buffer == old(self).buffer && sp.pid == p
                as i32 && sp.with_nvml == old(self).nvml && sp.period_ms == (match period {
                Some(t) => t,
                None => old(self).period_ms,
            })))),
    {
        if self.is_running {
            return None;
        }
        let p: u64 = match pid {
            Some(p) => p,
            None => {
                return None;
            },
        };
        let effective: u64 = match period {
            Some(t) => t,
            None => self.period_ms,
        };
        self.is_running = true;
        Some(SpawnPlan { pid: p as i32, period_ms: effective, with_nvml: self.nvml })
    }

    /// Ends the session: clears the running flag, after which every runner
    /// exits at its next tick boundary. Stopping while idle changes nothing.
    pub fn stop(&mut self)
        ensures
            !final(self).is_running,
            final(self).nvml == old(self).nvml,
            final(self).period_ms == old(self).period_ms,
            final(self).buffer == old(self).buffer,
    {
        self.is_running = false;
    }

    /// Appends one successfully captured snapshot to the buffer, preserving
    /// the producer's emission order.
    pub fn push_sample(&mut self, s: Sample)
        ensures
            final(self).buffer@ == old(self).buffer@.push(s),
            final(self).is_running == old(self).is_running,
            final(self).nvml == old(self).nvml,
            final(self).period_ms == old(self).period_ms,
    {
        self.buffer.push(s);
    }

    /// Applies one tick's outcome for one runner, and says whether that
    /// runner keeps ticking: a snapshot is buffered and the runner goes on;
    /// a not-retryable failure silently disables that runner alone; a
    /// failure that requires termination also ends the whole session; a
    /// retryable failure changes nothing and the runner tries again.
    pub fn runner_step(&mut self, outcome: Result<Sample, SamplingError>) -> (keep_going: bool)
        ensures
            final(self).nvml == old(self).nvml,
            final(self).period_ms == old(self).period_ms,
            match outcome {
                Ok(s) => final(self).buffer@ == old(self).buffer@.push(s) && final(self).is_running
                    == old(self).is_running && keep_going,
                Err(SamplingError::NotRetryable(_)) => *final(self) == *old(self) && !keep_going,
                Err(SamplingError::RequiresTermination(_)) => final(self).buffer == old(self).buffer
                    && !final(self).is_running && !keep_going,
                Err(SamplingError::Retryable(_)) => *final(self) == *old(self) && keep_going,
            },
    {
        match outcome {
            Ok(s) => {
                self.buffer.push(s);
                true
            },
            Err(SamplingError::NotRetryable(_)) => false,
            Err(SamplingError::RequiresTermination(_)) => {
                self.is_running = false;
                false
            },
            Err(SamplingError::Retryable(_)) => true,
        }
    }

    /// Drains the buffer into a result set partitioned by snapshot kind,
    /// each kind in its enqueue order. While the session is still running
    /// the call is a no-op that returns no data — never an error — so a
    /// read placed between start and the first tick observes an all-empty
    /// result. After a drain the buffer is empty, so a second immediate
    /// read returns an entirely empty result set.
    pub fn read(&mut self) -> (r: Option<DataSet>)
        ensures
            final(self).nvml == old(self).nvml,
            final(self).period_ms == old(self).period_ms,
            final(self).is_running == old(self).is_running,
            old(self).is_running ==> r is None && final(self).buffer == old(self).buffer,
            !old(self).is_running ==> (r matches Some(d) && (final(self).buffer@ == Seq::<
                Sample,
            >::empty() && d.cpu@ == cpu_entries(old(self).buffer@) && d.process@ == process_entries(
                old(self).buffer@,
            ) && d.rapl@ == rapl_entries(old(self).buffer@) && d.nvml@ == nvml_entries(
                old(self).buffer@,
            ))),
    {
        if self.is_running {
            return None;
        }
        let mut buf: Vec<Sample> = Vec::new();
        core::mem::swap(&mut self.buffer, &mut buf);
        let ghost orig = buf@;
        let mut data = DataSet { cpu: Vec::new(), process: Vec::new(), rapl: Vec::new(), nvml: Vec::new() };
        let ghost mut k: int = 0;
        assert(orig.subrange(0, 0) =~= Seq::<Sample>::empty());
        while buf.len() > 0
            invariant
                0 <= k <= orig.len(),
                buf@ == orig.subrange(k, orig.len() as int),
                data.cpu@ == cpu_entries(orig.subrange(0, k)),
                data.process@ == process_entries(orig.subrange(0, k)),
                data.rapl@ == rapl_entries(orig.subrange(0, k)),
                data.nvml@ == nvml_entries(orig.subrange(0, k)),
            decreases buf@.len(),
        {
            let s = buf.remove(0);
            proof {
                assert(s == orig[k]);
                let pre = orig.subrange(0, k);
                let post = orig.subrange(0, k + 1);
                assert(post.drop_last() =~= pre);
                assert(post.last() == orig[k]);
                assert(buf@ =~= orig.subrange(k + 1, orig.len() as int));
            }
            match s.data {
                Some(Data::Cpu(c)) => data.cpu.push(c),
                Some(Data::Process(p)) => data.process.push(p),
                Some(Data::Rapl(e)) => data.rapl.push(e),
                Some(Data::Nvml(g)) => data.nvml.push(g),
                None => (),
            }
            proof {
                k = k + 1;
            }
        }
        assert(orig.subrange(0, k) =~= orig);
        Some(data)
    }
}

/// How long a runner still has to sleep after a tick whose work took
/// `elapsed_ms`: the remainder of the period, or nothing when the work ran
/// past the period — the next tick then starts immediately, with no
/// catch-up accounting.
pub fn remaining_sleep(period_ms: u64, elapsed_ms: u64) -> (r: u64)
    ensures
        elapsed_ms < period_ms ==> r == period_ms - elapsed_ms,
        elapsed_ms >= period_ms ==> r == 0,
{
    if elapsed_ms < period_ms {
        period_ms - elapsed_ms
    } else {
        0
    }
}

/// Whether a buffered sample's capture timestamp lies within `[lo, hi]`.
pub open spec fn sample_within(s: Sample, lo: u64, hi: u64) -> bool {
    match s.data {
        Some(Data::Cpu(c)) => lo <= c.timestamp <= hi,
        Some(Data::Process(p)) => lo <= p.timestamp <= hi,
        Some(Data::Rapl(e)) => lo <= e.timestamp <= hi,
        Some(Data::Nvml(g)) => lo <= g.timestamp <= hi,
        None => true,
    }
}

/// The drain keeps capture timestamps inside the session window: when
/// every buffered sample was captured within `[lo, hi]` — as the runners'
/// ticks between a session's start and its stop plus one final tick period
/// are — every entry of every drained partition carries a timestamp within
/// `[lo, hi]`.
pub proof fn lemma_partition_keeps_timestamp_bounds(buf: Seq<Sample>, lo: u64, hi: u64)
    requires
        forall|i: int| 0 <= i < buf.len() ==> sample_within(#[trigger] buf[i], lo, hi),
    ensures
        forall|i: int|
            0 <= i < cpu_entries(buf).len() ==> lo <= #[trigger] cpu_entries(buf)[i].timestamp
                <= hi,
        forall|i: int|
            0 <= i < process_entries(buf).len() ==> lo <= #[trigger] process_entries(
                buf,
            )[i].timestamp <= hi,
        forall|i: int|
            0 <= i < rapl_entries(buf).len() ==> lo <= #[trigger] rapl_entries(buf)[i].timestamp
                <= hi,
        forall|i: int|
            0 <= i < nvml_entries(buf).len() ==> lo <= #[trigger] nvml_entries(buf)[i].timestamp
                <= hi,
    decreases buf.len(),
{
    if buf.len() > 0 {
        let d = buf.drop_last();
        assert(forall|i: int| 0 <= i < d.len() ==> #[trigger] d[i] == buf[i]);
        lemma_partition_keeps_timestamp_bounds(d, lo, hi);
        assert(buf.last() == buf[buf.len() - 1]);
        assert(sample_within(buf.last(), lo, hi));
        assert forall|i: int|
            0 <= i < cpu_entries(buf).len() implies lo <= #[trigger] cpu_entries(buf)[i].timestamp
            <= hi by {
            match buf.last().data {
                Some(Data::Cpu(c)) => {
                    assert(cpu_entries(buf) == cpu_entries(d).push(c));
                    if i < cpu_entries(d).len() {
                        assert(cpu_entries(buf)[i] == cpu_entries(d)[i]);
                    } else {
                        assert(cpu_entries(buf)[i] == c);
                    }
                },
                _ => {
                    assert(cpu_entries(buf) == cpu_entries(d));
                },
            }
        }
        assert forall|i: int|
            0 <= i < process_entries(buf).len() implies lo <= #[trigger] process_entries(
            buf,
        )[i].timestamp <= hi by {
            match buf.last().data {
                Some(Data::Process(p)) => {
                    assert(process_entries(buf) == process_entries(d).push(p));
                    if i < process_entries(d).len() {
                        assert(process_entries(buf)[i] == process_entries(d)[i]);
                    } else {
                        assert(process_entries(buf)[i] == p);
                    }
                },
                _ => {
                    assert(process_entries(buf) == process_entries(d));
                },
            }
        }
        assert forall|i: int|
            0 <= i < rapl_entries(buf).len() implies lo <= #[trigger] rapl_entries(buf)[i].timestamp
            <= hi by {
            match buf.last().data {
                Some(Data::Rapl(e)) => {
                    assert(rapl_entries(buf) == rapl_entries(d).push(e));
                    if i < rapl_entries(d).len() {
                        assert(rapl_entries(buf)[i] == rapl_entries(d)[i]);
                    } else {
                        assert(rapl_entries(buf)[i] == e);
                    }
                },
                _ => {
                    assert(rapl_entries(buf) == rapl_entries(d));
                },
            }
        }
        assert forall|i: int|
            0 <= i < nvml_entries(buf).len() implies lo <= #[trigger] nvml_entries(buf)[i].timestamp
            <= hi by {
            match buf.last().data {
                Some(Data::Nvml(g)) => {
                    assert(nvml_entries(buf) == nvml_entries(d).push(g));
                    if i < nvml_entries(d).len() {
                        assert(nvml_entries(buf)[i] == nvml_entries(d)[i]);
                    } else {
                        assert(nvml_entries(buf)[i] == g);
                    }
                },
                _ => {
                    assert(nvml_entries(buf) == nvml_entries(d));
                },
            }
        }
    }
}

/// Buffering one more snapshot extends exactly its own kind's partition,
/// at the end, and leaves the other kinds' partitions untouched: within one
/// source the drained order is the enqueue order.
pub proof fn lemma_partition_push(buf: Seq<Sample>, s: Sample)
    ensures
        cpu_entries(buf.push(s)) == (match s.data {
            Some(Data::Cpu(c)) => cpu_entries(buf).push(c),
            _ => cpu_entries(buf),
        }),
        process_entries(buf.push(s)) == (match s.data {
            Some(Data::Process(p)) => process_entries(buf).push(p),
            _ => process_entries(buf),
        }),
        rapl_entries(buf.push(s)) == (match s.data {
            Some(Data::Rapl(e)) => rapl_entries(buf).push(e),
            _ => rapl_entries(buf),
        }),
        nvml_entries(buf.push(s)) == (match s.data {
            Some(Data::Nvml(g)) => nvml_entries(buf).push(g),
            _ => nvml_entries(buf),
        }),
{
    assert(buf.push(s).drop_last() =~= buf);
    assert(buf.push(s).last() == s);
}

/// A drain leaves nothing behind: partitioning an empty buffer yields four
/// empty sequences, so the read that follows a completed read returns an
/// entirely empty result set rather than duplicating anything.
pub proof fn lemma_second_read_is_empty()
    ensures
        cpu_entries(Seq::<Sample>::empty()) == Seq::<CpuSample>::empty(),
        process_entries(Seq::<Sample>::empty()) == Seq::<ProcessSample>::empty(),
        rapl_entries(Seq::<Sample>::empty()) == Seq::<RaplSample>::empty(),
        nvml_entries(Seq::<Sample>::empty()) == Seq::<NvmlSample>::empty(),
{
}

} // verus!

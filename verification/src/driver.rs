use vstd::prelude::*;
use crate::metrics::TimingSample;
use crate::routine::Routine;

verus! {

/// Every routine directs its one-sided operations at this PE: it owns
/// the remote buffer or atomic cell under test.
pub const TARGET_PE: usize = 0;

/// One primitive operation of the measured tight loop, described as
/// plain data so the unverified communication layer can carry it out.
#[derive(Debug, Clone, Copy, PartialEq, Eq, Structural)]
pub enum Op {
    /// Bulk read of the target buffer's first `size` bytes into a local buffer.
    Read { size: usize },
    /// Bulk write of `size` bytes from a local buffer into the target buffer.
    Write { size: usize },
    /// Atomic add of `amount` to the target's 32-bit cell.
    Add { amount: u32 },
    /// Atomic compare-and-swap on the target's cell.
    CompareSwap { compare: u32, swap: u32 },
    /// Atomic fetch of the target cell's current value.
    Fetch,
    /// Atomic increment of the target's cell.
    Inc,
    /// One collective barrier across all PEs.
    Barrier,
}

/// The operation one PE repeats in the timed loop: bulk reads and
/// writes carry the current swept size; the compare-and-swap always
/// compares against 0 and swaps in the caller's own PE id; the add
/// always adds 1.
pub open spec fn spec_op_for(routine: Routine, my_pe: u32, size: usize) -> Op {
    match routine {
        Routine::Get => Op::Read { size },
        Routine::Put => Op::Write { size },
        Routine::AtomicAdd => Op::Add { amount: 1u32 },
        Routine::AtomicCmpSwp => Op::CompareSwap { compare: 0u32, swap: my_pe },
        Routine::AtomicFetch => Op::Fetch,
        Routine::AtomicInc => Op::Inc,
        Routine::Barrier => Op::Barrier,
    }
}

/// The operation one PE repeats `ntimes` in the timed loop, for the
/// given routine and, for the bulk routines, the current swept size.
pub fn op_for(routine: &Routine, my_pe: u32, size: usize) -> (op: Op)
    ensures
        op == spec_op_for(*routine, my_pe, size),
{
    match routine {
        Routine::Get => Op::Read { size },
        Routine::Put => Op::Write { size },
        Routine::AtomicAdd => Op::Add { amount: 1 },
        Routine::AtomicCmpSwp => Op::CompareSwap { compare: 0, swap: my_pe },
        Routine::AtomicFetch => Op::Fetch,
        Routine::AtomicInc => Op::Inc,
        Routine::Barrier => Op::Barrier,
    }
}

/// One phase of the measured-loop staging protocol, as plain data for
/// the communication layer to carry out in order.
#[derive(Debug, Clone, Copy, PartialEq, Eq, Structural)]
pub enum Step {
    /// Block until all locally issued one-sided operations have
    /// completed.
    Quiet,
    /// Collective barrier across all PEs.
    Barrier,
    /// Take this slot's start timestamp from the monotonic clock.
    StartTimer,
    /// The tight loop: `times` repetitions of `op`, every result
    /// observed through an optimizer-opaque sink and discarded.
    Repeat { op: Op, times: usize },
    /// Take the stop timestamp and record the slot's elapsed time.
    RecordSample,
}

/// The staging protocol of one measured slot. Bulk slots drain
/// in-flight traffic and align all PEs both before the clock starts
/// and before it stops, so no cross-slot work leaks in and the
/// slowest PE bounds the figure. Atomic slots skip the leading drain:
/// nothing is in flight right after the allocation's own barrier. The
/// barrier routine is itself collective and complete on return, so
/// its slot needs no draining at all.
pub open spec fn spec_slot_protocol(routine: Routine, my_pe: u32, size: usize, ntimes: usize) -> Seq<
    Step,
> {
    let work = Step::Repeat { op: spec_op_for(routine, my_pe, size), times: ntimes };
    if routine is Get || routine is Put {
        seq![
            Step::Quiet,
            Step::Barrier,
            Step::StartTimer,
            work,
            Step::Quiet,
            Step::Barrier,
            Step::RecordSample,
        ]
    } else if routine is Barrier {
        seq![Step::Barrier, Step::StartTimer, work, Step::RecordSample]
    } else {
        seq![
            Step::Barrier,
            Step::StartTimer,
            work,
            Step::Quiet,
            Step::Barrier,
            Step::RecordSample,
        ]
    }
}

/// The staging protocol of one measured slot, in execution order.
pub fn slot_protocol(routine: &Routine, my_pe: u32, size: usize, ntimes: usize) -> (steps: Vec<
    Step,
>)
    ensures
        steps@ == spec_slot_protocol(*routine, my_pe, size, ntimes),
{
    let op = op_for(routine, my_pe, size);
    let work = Step::Repeat { op, times: ntimes };
    let mut steps: Vec<Step> = Vec::new();
    if routine.uses_msg_size() {
        steps.push(Step::Quiet);
        steps.push(Step::Barrier);
        steps.push(Step::StartTimer);
        steps.push(work);
        steps.push(Step::Quiet);
        steps.push(Step::Barrier);
        steps.push(Step::RecordSample);
    } else if matches!(routine, Routine::Barrier) {
        steps.push(Step::Barrier);
        steps.push(Step::StartTimer);
        steps.push(work);
        steps.push(Step::RecordSample);
    } else {
        steps.push(Step::Barrier);
        steps.push(Step::StartTimer);
        steps.push(work);
        steps.push(Step::Quiet);
        steps.push(Step::Barrier);
        steps.push(Step::RecordSample);
    }
    proof {
        assert(steps@ =~= spec_slot_protocol(*routine, my_pe, size, ntimes));
    }
    steps
}

/// How many timing samples one run produces: one per swept size for
/// the bulk routines, and exactly one — whatever the repetition
/// count — for every other routine.
pub fn num_samples(routine: &Routine, sweep_len: usize) -> (n: usize)
    ensures
        (routine is Get || routine is Put) ==> n == sweep_len,
        !(routine is Get || routine is Put) ==> n == 1,
{
    if routine.uses_msg_size() {
        sweep_len
    } else {
        1
    }
}

/// The local source buffer for the bulk-write routine: every byte
/// carries the sender's PE id.
pub fn put_source(my_pe: u8, len: usize) -> (v: Vec<u8>)
    ensures
        v@.len() == len,
        forall|i: int| 0 <= i < len ==> v@[i] == my_pe,
{
    let mut v: Vec<u8> = Vec::new();
    let mut i: usize = 0;
    while i < len
        invariant
            i <= len,
            v@.len() == i,
            forall|j: int| 0 <= j < i ==> v@[j] == my_pe,
        decreases len - i,
    {
        v.push(my_pe);
        i = i + 1;
    }
    v
}

/// The deterministic fill pattern of the remote source buffer for the
/// bulk-read routine: each byte is its own offset, truncated.
pub fn read_source_pattern(len: usize) -> (v: Vec<u8>)
    ensures
        v@.len() == len,
        forall|i: int| 0 <= i < len ==> v@[i] == (i % 256) as u8,
{
    let mut v: Vec<u8> = Vec::new();
    let mut i: usize = 0;
    while i < len
        invariant
            i <= len,
            v@.len() == i,
            forall|j: int| 0 <= j < i ==> v@[j] == (j % 256) as u8,
        decreases len - i,
    {
        v.push((i % 256) as u8);
        i = i + 1;
    }
    v
}

/// Diagnostic model of the shared cell in the add and increment
/// routines: after `contributors` PEs have each added 1 to it
/// `ntimes` times, the cell reads ntimes * contributors; `None` when
/// that count no longer fits the 32-bit cell.
pub fn expected_final_cell(ntimes: u32, contributors: u32) -> (r: Option<u32>)
    ensures
        ntimes * contributors <= u32::MAX ==> r == Some((ntimes * contributors) as u32),
        ntimes * contributors > u32::MAX ==> r is None,
{
    ntimes.checked_mul(contributors)
}

/// The ordered timing samples of one bulk run: one slot per swept
/// size, filled in sweep order as the driver completes each measured
/// loop.
pub struct SampleLog {
    sizes: Vec<usize>,
    samples: Vec<TimingSample>,
}

impl SampleLog {
    /// The sweep this log was opened for.
    pub closed spec fn sweep(&self) -> Seq<usize> {
        self.sizes@
    }

    /// The samples recorded so far, in recording order.
    pub closed spec fn recorded(&self) -> Seq<TimingSample> {
        self.samples@
    }

    /// No more samples than sizes, and the i-th sample is tagged with
    /// the i-th swept size.
    pub closed spec fn wf(&self) -> bool {
        self.samples@.len() <= self.sizes@.len() && forall|i: int|
            0 <= i < self.samples@.len() ==> self.samples@[i].size == self.sizes@[i]
    }

    /// Open a log for one run over the given sweep.
    pub fn new(sizes: Vec<usize>) -> (log: Self)
        ensures
            log.wf(),
            log.sweep() == sizes@,
            log.recorded().len() == 0,
    {
        SampleLog { sizes, samples: Vec::new() }
    }

    /// Record the elapsed time of the measured loop at the next swept
    /// size.
    pub fn record(&mut self, elapsed_ns: u64)
        requires
            old(self).wf(),
            old(self).recorded().len() < old(self).sweep().len(),
        ensures
            final(self).wf(),
            final(self).sweep() == old(self).sweep(),
            final(self).recorded() == old(self).recorded().push(
                (TimingSample {
                    size: old(self).sweep()[old(self).recorded().len() as int],
                    elapsed_ns,
                }),
            ),
    {
        let idx = self.samples.len();
        let size = self.sizes[idx];
        self.samples.push(TimingSample { size, elapsed_ns });
    }

    /// Whether every swept size has its sample.
    pub fn is_complete(&self) -> (b: bool)
        ensures
            b == (self.recorded().len() == self.sweep().len()),
    {
        self.samples.len() == self.sizes.len()
    }

    /// The recorded samples, for the reporting step.
    pub fn samples(&self) -> (s: &Vec<TimingSample>)
        ensures
            s@ == self.recorded(),
    {
        &self.samples
    }
}

/// Law: a complete log holds exactly one sample per swept size, in
/// sweep order, each tagged with the size it was measured at.
pub proof fn lemma_complete_log_matches_sweep(log: &SampleLog)
    requires
        log.wf(),
        log.recorded().len() == log.sweep().len(),
    ensures
        forall|i: int| 0 <= i < log.sweep().len() ==> log.recorded()[i].size == log.sweep()[i],
{
}

} // verus!

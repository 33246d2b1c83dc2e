//! The model of the native runtime layer.
//!
//! A [`Runtime`] value stands for the process-wide state of the native
//! library: the ambient active device, every allocation it has handed out,
//! every stream and event, and a log of the native calls made so far.  The
//! wrapper types of this crate ([`crate::Device`], streams, events, memory
//! regions) hold indices into this state and are verified against it.
//!
//! The model doubles as a fake native layer for testing: the call log is
//! observable, and [`Runtime::inject_failure`] makes the next native call
//! report a failing status.

use vstd::prelude::*;

use crate::device::Device;

verus! {

/// One native call, as recorded in the runtime's call log.
#[derive(Clone, Copy, PartialEq, Eq, Structural, Debug)]
pub enum NativeCall {
    /// Runtime initialization.
    Init,
    /// Selecting the ambient active device.
    SetDevice,
    /// Querying the ambient active device.
    GetDevice,
    /// Blocking until all device work completes.
    DeviceSynchronize,
    /// Creating a stream.
    StreamCreate,
    /// Destroying a stream.
    StreamDestroy,
    /// Blocking until a stream's enqueued work completes.
    StreamSynchronize,
    /// Making a stream wait for an event.
    StreamWaitEvent,
    /// Creating an event.
    EventCreate,
    /// Destroying an event.
    EventDestroy,
    /// Recording an event on a stream.
    EventRecord,
    /// Polling an event's completion status.
    EventQuery,
    /// Blocking until an event completes.
    EventSynchronize,
    /// Synchronous device allocation.
    Malloc,
    /// Stream-ordered device allocation.
    MallocAsync,
    /// Pinned host allocation.
    MallocHost,
    /// Synchronous device free.
    Free,
    /// Stream-ordered device free.
    FreeAsync,
    /// Pinned host free.
    FreeHost,
    /// Synchronous memory copy.
    Memcpy,
    /// Stream-ordered memory copy.
    MemcpyAsync,
    /// Creating an operation handle.
    HandleCreate,
    /// Destroying an operation handle.
    HandleDestroy,
    /// Creating a tensor descriptor.
    TensorCreate,
    /// Destroying a tensor descriptor.
    TensorDestroy,
    /// Creating a generic operation descriptor.
    DescriptorCreate,
    /// Destroying a generic operation descriptor.
    DescriptorDestroy,
}

/// The error channel of every wrapped call.
///
/// The native layer's contract is that every call succeeds; a non-success
/// status is unrecoverable for the program.  The library reports it as
/// [`Error::NativeFailure`] and the embedding program decides how to abort.
/// Locally detected contract violations are reported before any native call
/// is made.
#[derive(Clone, Copy, PartialEq, Eq, Structural, Debug)]
pub enum Error {
    /// A native call reported a non-success status.
    NativeFailure,
    /// The byte lengths of a copy's source and destination differ.
    SizeMismatch,
    /// A tensor's shape and strides have different numbers of dimensions.
    DimensionMismatch,
    /// A blocking wait could never finish: the scheduler is quiescent
    /// while the waited-for work is still pending.
    Deadlock,
}

/// One native device allocation.
pub struct Alloc {
    /// The bytes of the allocation.
    pub data: Vec<u8>,
    /// How many live region handles share this allocation.
    pub refs: usize,
    /// Whether the native free call has not yet been issued for it.
    pub alive: bool,
}

/// One native pinned host allocation.
pub struct HostAlloc {
    /// The bytes of the allocation.
    pub data: Vec<u8>,
    /// Whether the native free call has not yet been issued for it.
    pub alive: bool,
}

/// One unit of work enqueued on a stream, with the indices it operates on.
#[derive(Clone, Copy)]
pub enum StreamOp {
    /// Work with no observable memory effect (an asynchronous allocation).
    Marker,
    /// Copy from a host allocation into a device allocation.
    CopyH2D {
        /// Destination device allocation.
        dst: usize,
        /// Byte offset into the destination allocation.
        dst_off: usize,
        /// Source host allocation.
        src: usize,
        /// Byte offset into the source allocation.
        src_off: usize,
        /// Number of bytes.
        len: usize,
    },
    /// Copy between device allocations.
    CopyD2D {
        /// Destination device allocation.
        dst: usize,
        /// Byte offset into the destination allocation.
        dst_off: usize,
        /// Source device allocation.
        src: usize,
        /// Byte offset into the source allocation.
        src_off: usize,
        /// Number of bytes.
        len: usize,
    },
    /// Copy from a device allocation into a host allocation.
    CopyD2H {
        /// Destination host allocation.
        dst: usize,
        /// Byte offset into the destination allocation.
        dst_off: usize,
        /// Source device allocation.
        src: usize,
        /// Byte offset into the source allocation.
        src_off: usize,
        /// Number of bytes.
        len: usize,
    },
    /// Release a device allocation whose last handle was handed to the
    /// stream.
    FreeOp {
        /// The device allocation to release.
        alloc: usize,
    },
}

/// A dependency of one stream on another, established by waiting on an
/// event: ops of the owning stream at index `pos` or later may only start
/// once the source stream has completed `src_pos` ops.
#[derive(Clone, Copy)]
pub struct Barrier {
    /// First op index of the owning stream that the barrier holds back.
    pub pos: usize,
    /// The stream whose progress is waited for.
    pub src_stream: usize,
    /// The number of completed ops the source stream must reach.
    pub src_pos: usize,
}

/// The state of one native stream: an in-order queue of work.
pub struct StreamState {
    /// Whether the stream has not yet been destroyed.
    pub alive: bool,
    /// The work enqueued so far, in program order.
    pub ops: Vec<StreamOp>,
    /// How many of the enqueued ops have completed.
    pub completed: usize,
    /// Cross-stream dependencies of this stream.
    pub barriers: Vec<Barrier>,
}

/// The point in a stream's queue at which an event was recorded.
#[derive(Clone, Copy)]
pub struct EventMark {
    /// The stream the event was recorded on.
    pub stream: usize,
    /// The number of ops enqueued on that stream before the record.
    pub pos: usize,
}

/// The state of one native event.
pub struct EventState {
    /// Whether the event has not yet been destroyed.
    pub alive: bool,
    /// Where the event was last recorded, if it ever was.
    pub recorded: Option<EventMark>,
}

/// The element type, shape and element strides a tensor descriptor encodes.
pub struct TensorState {
    /// Whether the descriptor has not yet been destroyed.
    pub alive: bool,
    /// The element type.
    pub dtype: crate::tensor::Dtype,
    /// The dimension sizes.
    pub shape: Vec<usize>,
    /// The per-dimension strides, in elements.
    pub strides: Vec<isize>,
}

/// The whole state of the native layer.
pub struct Runtime {
    /// Whether the initialization call has succeeded.
    pub initialized: bool,
    /// The ambient active device: process-wide, mutable state.
    pub active: Device,
    /// Whether the next native call reports a failing status.
    pub fail_next: bool,
    /// Every native call made so far, in order.
    pub log: Vec<NativeCall>,
    /// Every device allocation ever made; indices are never reused.
    pub allocs: Vec<Alloc>,
    /// Every pinned host allocation ever made.
    pub host_allocs: Vec<HostAlloc>,
    /// Every stream ever created.
    pub streams: Vec<StreamState>,
    /// Every event ever created.
    pub events: Vec<EventState>,
    /// Liveness of every operation handle ever created.
    pub handles: Vec<bool>,
    /// Every tensor descriptor ever created.
    pub tensors: Vec<TensorState>,
    /// Liveness of every generic descriptor ever created.
    pub descriptors: Vec<bool>,
}

/// Whether a stream op only touches allocations that exist, within bounds.
pub open spec fn op_in_bounds(rt: Runtime, op: StreamOp) -> bool {
    match op {
        StreamOp::Marker => true,
        StreamOp::CopyH2D { dst, dst_off, src, src_off, len } => {
            &&& dst < rt.allocs@.len()
            &&& src < rt.host_allocs@.len()
            &&& dst_off + len <= rt.allocs@[dst as int].data@.len()
            &&& src_off + len <= rt.host_allocs@[src as int].data@.len()
        },
        StreamOp::CopyD2D { dst, dst_off, src, src_off, len } => {
            &&& dst < rt.allocs@.len()
            &&& src < rt.allocs@.len()
            &&& dst_off + len <= rt.allocs@[dst as int].data@.len()
            &&& src_off + len <= rt.allocs@[src as int].data@.len()
        },
        StreamOp::CopyD2H { dst, dst_off, src, src_off, len } => {
            &&& dst < rt.host_allocs@.len()
            &&& src < rt.allocs@.len()
            &&& dst_off + len <= rt.host_allocs@[dst as int].data@.len()
            &&& src_off + len <= rt.allocs@[src as int].data@.len()
        },
        StreamOp::FreeOp { alloc } => alloc < rt.allocs@.len(),
    }
}

impl Runtime {
    /// Whether stream `i`'s queue, progress and barriers are consistent
    /// with the rest of the state.
    pub open spec fn stream_wf(self, i: int) -> bool {
        let s = self.streams@[i];
        &&& s.completed <= s.ops@.len()
        &&& forall|j: int|
            0 <= j < s.ops@.len() ==> op_in_bounds(self, #[trigger] s.ops@[j])
        &&& forall|j: int|
            0 <= j < s.barriers@.len() ==> {
                let b = #[trigger] s.barriers@[j];
                &&& b.src_stream < self.streams@.len()
                &&& b.pos <= s.ops@.len()
                &&& s.completed > b.pos
                    ==> self.streams@[b.src_stream as int].completed >= b.src_pos
            }
    }

    /// The well-formedness invariant of the model: every stream's progress
    /// respects its barriers, every enqueued op is in bounds, and every
    /// recorded event points into an existing stream's queue.
    pub open spec fn wf(self) -> bool {
        &&& forall|i: int| 0 <= i < self.streams@.len() ==> self.stream_wf(i)
        &&& forall|i: int|
            0 <= i < self.events@.len() ==> {
                let e = #[trigger] self.events@[i];
                e.recorded matches Some(m) ==> {
                    &&& m.stream < self.streams@.len()
                    &&& m.pos <= self.streams@[m.stream as int].ops@.len()
                }
            }
    }

    /// Whether the op at the head of stream `i`'s queue may start: every
    /// barrier that holds it back is satisfied.
    pub open spec fn head_unblocked(self, i: int) -> bool {
        let s = self.streams@[i];
        forall|j: int|
            0 <= j < s.barriers@.len() ==> {
                let b = #[trigger] s.barriers@[j];
                b.pos <= s.completed
                    ==> self.streams@[b.src_stream as int].completed >= b.src_pos
            }
    }

    /// Whether stream `i` has pending work that may start now.
    pub open spec fn can_advance(self, i: int) -> bool {
        &&& self.streams@[i].completed < self.streams@[i].ops@.len()
        &&& self.head_unblocked(i)
    }

    /// Whether no stream has work that may start: every queue is drained
    /// or held back by an unsatisfied barrier.
    pub open spec fn quiescent(self) -> bool {
        forall|i: int| 0 <= i < self.streams@.len() ==> !self.can_advance(i)
    }

    /// Whether a recorded event has completed: the stream it was recorded
    /// on has finished all work enqueued before the record.
    pub open spec fn event_complete(self, m: EventMark) -> bool {
        self.streams@[m.stream as int].completed >= m.pos
    }

    /// A fresh runtime: nothing allocated, nothing logged.
    pub fn new() -> (rt: Runtime)
        ensures
            rt.wf(),
            !rt.initialized,
            !rt.fail_next,
            rt.active == (Device { ty: crate::device::DeviceType::CPU, id: 0 }),
            rt.log@ =~= Seq::<NativeCall>::empty(),
            rt.allocs@ =~= Seq::<Alloc>::empty(),
            rt.host_allocs@ =~= Seq::<HostAlloc>::empty(),
            rt.streams@ =~= Seq::<StreamState>::empty(),
            rt.events@ =~= Seq::<EventState>::empty(),
            rt.handles@ =~= Seq::<bool>::empty(),
            rt.tensors@ =~= Seq::<TensorState>::empty(),
            rt.descriptors@ =~= Seq::<bool>::empty(),
    {
        Runtime {
            initialized: false,
            active: Device { ty: crate::device::DeviceType::CPU, id: 0 },
            fail_next: false,
            log: Vec::new(),
            allocs: Vec::new(),
            host_allocs: Vec::new(),
            streams: Vec::new(),
            events: Vec::new(),
            handles: Vec::new(),
            tensors: Vec::new(),
            descriptors: Vec::new(),
        }
    }

    /// Makes the next native call report a failing status.
    ///
    /// This is the fake layer's fault-injection switch: it lets a test
    /// check that a failing status on any wrapped call surfaces as
    /// [`Error::NativeFailure`] and never as a partial result.
    pub fn inject_failure(&mut self)
        ensures
            final(self).fail_next,
            eq_except_log_fail(*old(self), *final(self)),
            final(self).log == old(self).log,
    {
        self.fail_next = true;
    }

    /// The number of native calls made so far.
    pub fn call_count(&self) -> (n: usize)
        ensures
            n == self.log@.len(),
    {
        self.log.len()
    }
}

/// Whether `b` agrees with `a` on everything but the call log and the
/// failure-injection switch.
pub open spec fn eq_except_log_fail(a: Runtime, b: Runtime) -> bool {
    &&& b.initialized == a.initialized
    &&& b.active == a.active
    &&& b.allocs == a.allocs
    &&& b.host_allocs == a.host_allocs
    &&& b.streams == a.streams
    &&& b.events == a.events
    &&& b.handles == a.handles
    &&& b.tensors == a.tensors
    &&& b.descriptors == a.descriptors
}

/// Whether `b` agrees with `a` on everything but the call log, the
/// failure-injection switch and the initialized flag.
pub open spec fn eq_except_log_fail_init(a: Runtime, b: Runtime) -> bool {
    &&& b.active == a.active
    &&& b.allocs == a.allocs
    &&& b.host_allocs == a.host_allocs
    &&& b.streams == a.streams
    &&& b.events == a.events
    &&& b.handles == a.handles
    &&& b.tensors == a.tensors
    &&& b.descriptors == a.descriptors
}

/// Well-formedness only reads the streams, events and the allocation
/// tables: two states that agree on those are equally well formed.
pub proof fn lemma_wf_frame(a: Runtime, b: Runtime)
    requires
        a.wf(),
        b.allocs == a.allocs,
        b.host_allocs == a.host_allocs,
        b.streams == a.streams,
        b.events == a.events,
    ensures
        b.wf(),
{
    assert forall|i: int| 0 <= i < b.streams@.len() implies b.stream_wf(i) by {
        assert(a.stream_wf(i));
        let s = b.streams@[i];
        assert forall|j: int| 0 <= j < s.ops@.len() implies op_in_bounds(
            b,
            #[trigger] s.ops@[j],
        ) by {
            assert(op_in_bounds(a, s.ops@[j]));
        }
    }
}

/// `orig` with the range starting at `off` replaced by `bytes`: the
/// effect of a memory copy on the destination allocation's contents.
pub open spec fn spliced(orig: Seq<u8>, off: int, bytes: Seq<u8>) -> Seq<u8> {
    Seq::new(
        orig.len(),
        |i: int|
            if off <= i < off + bytes.len() {
                bytes[i - off]
            } else {
                orig[i]
            },
    )
}

/// Whether `b` agrees with `a` on the fields that neither memory
/// operations nor the scheduler ever touch.
pub open spec fn core_eq(a: Runtime, b: Runtime) -> bool {
    &&& b.initialized == a.initialized
    &&& b.active == a.active
    &&& b.events == a.events
    &&& b.handles == a.handles
    &&& b.tensors == a.tensors
    &&& b.descriptors == a.descriptors
}

/// Whether `b` agrees with `a` on everything outside the memory tables,
/// the call log and the failure-injection switch.
pub open spec fn non_mem_eq(a: Runtime, b: Runtime) -> bool {
    &&& core_eq(a, b)
    &&& b.streams == a.streams
}

/// The relation for enqueuing op `op` on stream `sid` under native call
/// `c`: the op is appended to the stream's queue, the call is logged, and
/// nothing else changes.
pub open spec fn enqueue_post(
    pre: Runtime,
    post: Runtime,
    sid: int,
    op: StreamOp,
    c: NativeCall,
) -> bool {
    &&& post.streams@.len() == pre.streams@.len()
    &&& forall|i: int|
        0 <= i < pre.streams@.len() && i != sid ==> #[trigger] post.streams@[i]
            == pre.streams@[i]
    &&& post.streams@[sid].ops@ == pre.streams@[sid].ops@.push(op)
    &&& post.streams@[sid].completed == pre.streams@[sid].completed
    &&& post.streams@[sid].barriers == pre.streams@[sid].barriers
    &&& post.streams@[sid].alive == pre.streams@[sid].alive
    &&& post.log@ == pre.log@.push(c)
    &&& !post.fail_next
    &&& post.allocs == pre.allocs
    &&& post.host_allocs == pre.host_allocs
    &&& core_eq(pre, post)
}

/// The two runtime states around a blocking synchronization call under
/// native call `c`, when the native status was good: the call is logged
/// and the scheduler ran.
pub open spec fn sync_post(pre: Runtime, post: Runtime, c: NativeCall) -> bool {
    &&& post.log@ == pre.log@.push(c)
    &&& !post.fail_next
    &&& sched_core(pre, post)
    &&& post.quiescent()
}

/// The scheduler-core relation composes.
pub proof fn lemma_sched_core_trans(a: Runtime, b: Runtime, c: Runtime)
    requires
        sched_core(a, b),
        sched_core(b, c),
    ensures
        sched_core(a, c),
{
}

/// Two states equal but for log and failure switch are within the
/// scheduler-core relation.
pub proof fn lemma_sched_core_refl(a: Runtime, b: Runtime)
    requires
        eq_except_log_fail(a, b),
    ensures
        sched_core(a, b),
{
}

/// Well-formedness survives any change to the memory tables that keeps
/// every existing allocation's length: enqueued ops stay in bounds.
pub proof fn lemma_wf_frame_mem(a: Runtime, b: Runtime)
    requires
        a.wf(),
        b.streams == a.streams,
        b.events == a.events,
        b.allocs@.len() >= a.allocs@.len(),
        forall|i: int|
            0 <= i < a.allocs@.len() ==> #[trigger] b.allocs@[i].data@.len()
                == a.allocs@[i].data@.len(),
        b.host_allocs@.len() >= a.host_allocs@.len(),
        forall|i: int|
            0 <= i < a.host_allocs@.len() ==> #[trigger] b.host_allocs@[i].data@.len()
                == a.host_allocs@[i].data@.len(),
    ensures
        b.wf(),
{
    assert forall|i: int| 0 <= i < b.streams@.len() implies b.stream_wf(i) by {
        assert(a.stream_wf(i));
        let s = b.streams@[i];
        assert forall|j: int| 0 <= j < s.ops@.len() implies op_in_bounds(
            b,
            #[trigger] s.ops@[j],
        ) by {
            assert(op_in_bounds(a, s.ops@[j]));
        }
    }
}

/// Makes one native call against the model: logs it, and reports the
/// injected status if one is pending.  Every wrapped operation goes through
/// here, so the success-or-fail policy is uniform.
pub(crate) fn native_call(rt: &mut Runtime, c: NativeCall) -> (r: Result<(), Error>)
    ensures
        final(rt).log@ == old(rt).log@.push(c),
        !final(rt).fail_next,
        eq_except_log_fail(*old(rt), *final(rt)),
        r is Ok <==> !old(rt).fail_next,
        r is Err ==> r == Result::<(), Error>::Err(Error::NativeFailure),
        old(rt).wf() ==> final(rt).wf(),
{
    rt.log.push(c);
    let r: Result<(), Error> = if rt.fail_next {
        rt.fail_next = false;
        Err(Error::NativeFailure)
    } else {
        Ok(())
    };
    proof {
        if old(rt).wf() {
            lemma_wf_frame(*old(rt), *rt);
        }
    }
    r
}

/// How many entries of `log` are native free calls on device memory.
pub open spec fn spec_free_calls(log: Seq<NativeCall>) -> nat
    decreases log.len(),
{
    if log.len() == 0 {
        0
    } else {
        spec_free_calls(log.drop_last()) + if log.last() is Free || log.last() is FreeAsync {
            1nat
        } else {
            0nat
        }
    }
}

/// How many entries of `log` are native device or host allocation calls.
pub open spec fn spec_alloc_calls(log: Seq<NativeCall>) -> nat
    decreases log.len(),
{
    if log.len() == 0 {
        0
    } else {
        spec_alloc_calls(log.drop_last()) + if log.last() is Malloc || log.last()
            is MallocAsync || log.last() is MallocHost {
            1nat
        } else {
            0nat
        }
    }
}

/// Appending one call to a log raises the free-call count exactly when
/// the appended call is a device free.
pub proof fn lemma_free_calls_push(log: Seq<NativeCall>, c: NativeCall)
    ensures
        spec_free_calls(log.push(c)) == spec_free_calls(log) + if c is Free || c is FreeAsync {
            1int
        } else {
            0int
        },
{
    assert(log.push(c).drop_last() =~= log);
}

impl Runtime {
    /// Counts the native free calls on device memory made so far.
    pub fn free_call_count(&self) -> (n: usize)
        ensures
            n == spec_free_calls(self.log@),
    {
        let mut n: usize = 0;
        let mut i: usize = 0;
        while i < self.log.len()
            invariant
                i <= self.log@.len(),
                n == spec_free_calls(self.log@.take(i as int)),
                n <= i,
            decreases self.log@.len() - i,
        {
            let c = self.log[i];
            proof {
                assert(self.log@.take(i + 1).drop_last() =~= self.log@.take(i as int));
                assert(self.log@.take(i + 1).last() == self.log@[i as int]);
            }
            if matches!(c, NativeCall::Free | NativeCall::FreeAsync) {
                n = n + 1;
            }
            i = i + 1;
        }
        proof {
            assert(self.log@.take(self.log@.len() as int) =~= self.log@);
        }
        n
    }

    /// Counts the native allocation calls (device or host) made so far.
    pub fn alloc_call_count(&self) -> (n: usize)
        ensures
            n == spec_alloc_calls(self.log@),
    {
        let mut n: usize = 0;
        let mut i: usize = 0;
        while i < self.log.len()
            invariant
                i <= self.log@.len(),
                n == spec_alloc_calls(self.log@.take(i as int)),
                n <= i,
            decreases self.log@.len() - i,
        {
            let c = self.log[i];
            proof {
                assert(self.log@.take(i + 1).drop_last() =~= self.log@.take(i as int));
                assert(self.log@.take(i + 1).last() == self.log@[i as int]);
            }
            if matches!(c, NativeCall::Malloc | NativeCall::MallocAsync | NativeCall::MallocHost) {
                n = n + 1;
            }
            i = i + 1;
        }
        proof {
            assert(self.log@.take(self.log@.len() as int) =~= self.log@);
        }
        n
    }
}

/// Whether `b`'s memory tables extend `a`'s: nothing existing shrinks or
/// changes length.
pub open spec fn mem_extended(a: Runtime, b: Runtime) -> bool {
    &&& b.allocs@.len() >= a.allocs@.len()
    &&& forall|i: int|
        0 <= i < a.allocs@.len() ==> #[trigger] b.allocs@[i].data@.len()
            == a.allocs@[i].data@.len()
    &&& b.host_allocs@.len() >= a.host_allocs@.len()
    &&& forall|i: int|
        0 <= i < a.host_allocs@.len() ==> #[trigger] b.host_allocs@[i].data@.len()
            == a.host_allocs@[i].data@.len()
}

/// Well-formedness survives any change that keeps every stream's queue,
/// progress, barriers and every event's recording, and only extends the
/// memory tables; liveness flags are free to change.
pub proof fn lemma_wf_same_shape(a: Runtime, b: Runtime)
    requires
        a.wf(),
        mem_extended(a, b),
        b.streams@.len() == a.streams@.len(),
        forall|i: int|
            0 <= i < a.streams@.len() ==> {
                &&& (#[trigger] b.streams@[i]).ops == a.streams@[i].ops
                &&& b.streams@[i].completed == a.streams@[i].completed
                &&& b.streams@[i].barriers == a.streams@[i].barriers
            },
        b.events@.len() == a.events@.len(),
        forall|i: int|
            0 <= i < a.events@.len() ==> (#[trigger] b.events@[i]).recorded == a.events@[
                i
            ].recorded,
    ensures
        b.wf(),
{
    assert forall|i: int| 0 <= i < b.streams@.len() implies b.stream_wf(i) by {
        assert(a.stream_wf(i));
        let s = b.streams@[i];
        assert forall|j: int| 0 <= j < s.ops@.len() implies op_in_bounds(
            b,
            #[trigger] s.ops@[j],
        ) by {
            assert(op_in_bounds(a, a.streams@[i].ops@[j]));
        }
    }
}

/// Well-formedness survives creating a fresh stream.
pub proof fn lemma_wf_push_stream(a: Runtime, b: Runtime)
    requires
        a.wf(),
        mem_extended(a, b),
        b.events == a.events,
        b.streams@.len() == a.streams@.len() + 1,
        forall|i: int|
            0 <= i < a.streams@.len() ==> #[trigger] b.streams@[i] == a.streams@[i],
        b.streams@.last().ops@.len() == 0,
        b.streams@.last().completed == 0,
        b.streams@.last().barriers@.len() == 0,
    ensures
        b.wf(),
{
    assert forall|i: int| 0 <= i < b.streams@.len() implies b.stream_wf(i) by {
        if i < a.streams@.len() {
            assert(a.stream_wf(i));
            let s = b.streams@[i];
            assert forall|j: int| 0 <= j < s.ops@.len() implies op_in_bounds(
                b,
                #[trigger] s.ops@[j],
            ) by {
                assert(op_in_bounds(a, a.streams@[i].ops@[j]));
            }
        }
    }
}

/// Well-formedness survives creating a fresh, unrecorded event.
pub proof fn lemma_wf_push_event(a: Runtime, b: Runtime)
    requires
        a.wf(),
        mem_extended(a, b),
        b.streams == a.streams,
        b.events@.len() == a.events@.len() + 1,
        forall|i: int| 0 <= i < a.events@.len() ==> #[trigger] b.events@[i] == a.events@[i],
        b.events@.last().recorded is None,
    ensures
        b.wf(),
{
    assert forall|i: int| 0 <= i < b.streams@.len() implies b.stream_wf(i) by {
        assert(a.stream_wf(i));
        let s = b.streams@[i];
        assert forall|j: int| 0 <= j < s.ops@.len() implies op_in_bounds(
            b,
            #[trigger] s.ops@[j],
        ) by {
            assert(op_in_bounds(a, a.streams@[i].ops@[j]));
        }
    }
}

/// Well-formedness survives enqueuing an in-bounds op on stream `sid`.
pub proof fn lemma_wf_push_op(a: Runtime, b: Runtime, sid: int, op: StreamOp)
    requires
        a.wf(),
        0 <= sid < a.streams@.len(),
        mem_extended(a, b),
        op_in_bounds(b, op),
        b.events == a.events,
        b.streams@.len() == a.streams@.len(),
        forall|i: int|
            0 <= i < a.streams@.len() && i != sid ==> #[trigger] b.streams@[i] == a.streams@[i],
        b.streams@[sid].ops@ == a.streams@[sid].ops@.push(op),
        b.streams@[sid].completed == a.streams@[sid].completed,
        b.streams@[sid].barriers == a.streams@[sid].barriers,
    ensures
        b.wf(),
{
    assert forall|i: int| 0 <= i < b.streams@.len() implies b.stream_wf(i) by {
        assert(a.stream_wf(i));
        let s = b.streams@[i];
        assert forall|j: int| 0 <= j < s.ops@.len() implies op_in_bounds(
            b,
            #[trigger] s.ops@[j],
        ) by {
            if i == sid && j == a.streams@[sid].ops@.len() {
                assert(s.ops@[j] == op);
            } else {
                assert(s.ops@[j] == a.streams@[i].ops@[j]);
                assert(op_in_bounds(a, a.streams@[i].ops@[j]));
            }
        }
    }
}

/// Well-formedness survives adding a barrier that holds back only work
/// not yet enqueued.
pub proof fn lemma_wf_push_barrier(a: Runtime, b: Runtime, sid: int, bar: Barrier)
    requires
        a.wf(),
        0 <= sid < a.streams@.len(),
        bar.src_stream < a.streams@.len(),
        bar.pos <= a.streams@[sid].ops@.len(),
        bar.pos >= a.streams@[sid].completed,
        b.allocs == a.allocs,
        b.host_allocs == a.host_allocs,
        b.events == a.events,
        b.streams@.len() == a.streams@.len(),
        forall|i: int|
            0 <= i < a.streams@.len() && i != sid ==> #[trigger] b.streams@[i] == a.streams@[i],
        b.streams@[sid].ops == a.streams@[sid].ops,
        b.streams@[sid].completed == a.streams@[sid].completed,
        b.streams@[sid].barriers@ == a.streams@[sid].barriers@.push(bar),
    ensures
        b.wf(),
{
    assert forall|i: int| 0 <= i < b.streams@.len() implies b.stream_wf(i) by {
        assert(a.stream_wf(i));
        let s = b.streams@[i];
        assert forall|j: int| 0 <= j < s.ops@.len() implies op_in_bounds(
            b,
            #[trigger] s.ops@[j],
        ) by {
            assert(op_in_bounds(a, a.streams@[i].ops@[j]));
        }
        if i == sid {
            assert forall|j: int| 0 <= j < s.barriers@.len() implies {
                let c = #[trigger] s.barriers@[j];
                &&& c.src_stream < b.streams@.len()
                &&& c.pos <= s.ops@.len()
                &&& s.completed > c.pos ==> b.streams@[c.src_stream as int].completed
                    >= c.src_pos
            } by {
                if j < a.streams@[sid].barriers@.len() {
                    assert(s.barriers@[j] == a.streams@[sid].barriers@[j]);
                } else {
                    assert(s.barriers@[j] == bar);
                }
            }
        }
    }
}

/// Well-formedness survives recording an event at a position within the
/// recording stream's queue.
pub proof fn lemma_wf_record(a: Runtime, b: Runtime, eid: int, m: EventMark)
    requires
        a.wf(),
        0 <= eid < a.events@.len(),
        m.stream < a.streams@.len(),
        m.pos <= a.streams@[m.stream as int].ops@.len(),
        b.allocs == a.allocs,
        b.host_allocs == a.host_allocs,
        b.streams == a.streams,
        b.events@.len() == a.events@.len(),
        forall|i: int|
            0 <= i < a.events@.len() && i != eid ==> #[trigger] b.events@[i] == a.events@[i],
        b.events@[eid].recorded == Some(m),
    ensures
        b.wf(),
{
    assert forall|i: int| 0 <= i < b.streams@.len() implies b.stream_wf(i) by {
        assert(a.stream_wf(i));
        let s = b.streams@[i];
        assert forall|j: int| 0 <= j < s.ops@.len() implies op_in_bounds(
            b,
            #[trigger] s.ops@[j],
        ) by {
            assert(op_in_bounds(a, a.streams@[i].ops@[j]));
        }
    }
}

/// The number of enqueued but not yet completed ops of one stream.
pub open spec fn stream_pending(s: StreamState) -> int {
    if s.completed <= s.ops@.len() {
        s.ops@.len() - s.completed
    } else {
        0
    }
}

/// The total pending work of the streams from index `i` onward.
pub open spec fn pending_from(streams: Seq<StreamState>, i: int) -> int
    decreases streams.len() - i,
{
    if 0 <= i < streams.len() {
        stream_pending(streams[i]) + pending_from(streams, i + 1)
    } else {
        0
    }
}

/// Pending work is never negative.
pub proof fn lemma_pending_nonneg(streams: Seq<StreamState>, i: int)
    ensures
        pending_from(streams, i) >= 0,
    decreases streams.len() - i,
{
    if 0 <= i < streams.len() {
        lemma_pending_nonneg(streams, i + 1);
    }
}

/// Changing one stream changes the total pending work by exactly that
/// stream's change.
pub proof fn lemma_pending_update(s1: Seq<StreamState>, s2: Seq<StreamState>, j: int, i: int)
    requires
        s1.len() == s2.len(),
        0 <= j < s1.len(),
        forall|k: int| 0 <= k < s1.len() && k != j ==> s2[k] == s1[k],
        0 <= i <= s1.len(),
    ensures
        pending_from(s2, i) == pending_from(s1, i) + if i <= j {
            stream_pending(s2[j]) - stream_pending(s1[j])
        } else {
            0int
        },
    decreases s1.len() - i,
{
    if i < s1.len() {
        lemma_pending_update(s1, s2, j, i + 1);
    }
}

impl Runtime {
    /// The total amount of enqueued work not yet completed, over all
    /// streams: the mock scheduler's progress measure.
    pub open spec fn total_pending(self) -> int {
        pending_from(self.streams@, 0)
    }
}

/// The part of the scheduler-step relation that ignores the call log:
/// completing enqueued work only raises completion counts, rewrites
/// allocation contents in place, and can only turn device allocations
/// dead; it touches nothing else.
pub open spec fn sched_core(pre: Runtime, post: Runtime) -> bool {
    &&& post.initialized == pre.initialized
    &&& post.active == pre.active
    &&& post.events == pre.events
    &&& post.handles == pre.handles
    &&& post.tensors == pre.tensors
    &&& post.descriptors == pre.descriptors
    &&& post.streams@.len() == pre.streams@.len()
    &&& forall|i: int|
        0 <= i < pre.streams@.len() ==> {
            &&& (#[trigger] post.streams@[i]).ops == pre.streams@[i].ops
            &&& post.streams@[i].barriers == pre.streams@[i].barriers
            &&& post.streams@[i].alive == pre.streams@[i].alive
            &&& post.streams@[i].completed >= pre.streams@[i].completed
        }
    &&& post.allocs@.len() == pre.allocs@.len()
    &&& forall|a: int|
        0 <= a < pre.allocs@.len() ==> {
            &&& (#[trigger] post.allocs@[a]).data@.len() == pre.allocs@[a].data@.len()
            &&& post.allocs@[a].refs == pre.allocs@[a].refs
            &&& (post.allocs@[a].alive ==> pre.allocs@[a].alive)
        }
    &&& post.host_allocs@.len() == pre.host_allocs@.len()
    &&& forall|h: int|
        0 <= h < pre.host_allocs@.len() ==> {
            &&& (#[trigger] post.host_allocs@[h]).data@.len() == pre.host_allocs@[h].data@.len()
            &&& post.host_allocs@[h].alive == pre.host_allocs@[h].alive
        }
}

/// What running the mock scheduler may do to the runtime: a
/// [`sched_core`] change that makes no native call.
pub open spec fn sched_evolves(pre: Runtime, post: Runtime) -> bool {
    &&& sched_core(pre, post)
    &&& post.log == pre.log
    &&& post.fail_next == pre.fail_next
}

/// The scheduler relation composes.
pub proof fn lemma_sched_evolves_trans(a: Runtime, b: Runtime, c: Runtime)
    requires
        sched_evolves(a, b),
        sched_evolves(b, c),
    ensures
        sched_evolves(a, c),
{
}

/// The memory effect of completing one stream op.
pub open spec fn op_applied(pre: Runtime, post: Runtime, op: StreamOp) -> bool {
    match op {
        StreamOp::Marker => {
            &&& post.allocs == pre.allocs
            &&& post.host_allocs == pre.host_allocs
        },
        StreamOp::CopyH2D { dst, dst_off, src, src_off, len } => {
            &&& post.host_allocs == pre.host_allocs
            &&& post.allocs@.len() == pre.allocs@.len()
            &&& forall|i: int|
                0 <= i < pre.allocs@.len() && i != dst ==> #[trigger] post.allocs@[i]
                    == pre.allocs@[i]
            &&& post.allocs@[dst as int].data@ == spliced(
                pre.allocs@[dst as int].data@,
                dst_off as int,
                pre.host_allocs@[src as int].data@.subrange(src_off as int, src_off + len),
            )
            &&& post.allocs@[dst as int].refs == pre.allocs@[dst as int].refs
            &&& post.allocs@[dst as int].alive == pre.allocs@[dst as int].alive
        },
        StreamOp::CopyD2D { dst, dst_off, src, src_off, len } => {
            &&& post.host_allocs == pre.host_allocs
            &&& post.allocs@.len() == pre.allocs@.len()
            &&& forall|i: int|
                0 <= i < pre.allocs@.len() && i != dst ==> #[trigger] post.allocs@[i]
                    == pre.allocs@[i]
            &&& post.allocs@[dst as int].data@ == spliced(
                pre.allocs@[dst as int].data@,
                dst_off as int,
                pre.allocs@[src as int].data@.subrange(src_off as int, src_off + len),
            )
            &&& post.allocs@[dst as int].refs == pre.allocs@[dst as int].refs
            &&& post.allocs@[dst as int].alive == pre.allocs@[dst as int].alive
        },
        StreamOp::CopyD2H { dst, dst_off, src, src_off, len } => {
            &&& post.allocs == pre.allocs
            &&& post.host_allocs@.len() == pre.host_allocs@.len()
            &&& forall|i: int|
                0 <= i < pre.host_allocs@.len() && i != dst ==> #[trigger] post.host_allocs@[i]
                    == pre.host_allocs@[i]
            &&& post.host_allocs@[dst as int].data@ == spliced(
                pre.host_allocs@[dst as int].data@,
                dst_off as int,
                pre.allocs@[src as int].data@.subrange(src_off as int, src_off + len),
            )
            &&& post.host_allocs@[dst as int].alive == pre.host_allocs@[dst as int].alive
        },
        StreamOp::FreeOp { alloc } => {
            &&& post.host_allocs == pre.host_allocs
            &&& post.allocs@.len() == pre.allocs@.len()
            &&& forall|i: int|
                0 <= i < pre.allocs@.len() && i != alloc ==> #[trigger] post.allocs@[i]
                    == pre.allocs@[i]
            &&& !post.allocs@[alloc as int].alive
            &&& post.allocs@[alloc as int].data == pre.allocs@[alloc as int].data
            &&& post.allocs@[alloc as int].refs == pre.allocs@[alloc as int].refs
        },
    }
}

/// The relation for one scheduler step on stream `sid`: either nothing
/// may start and nothing changes, or the head op completes, with its
/// memory effect applied and the stream's completion count raised by one.
pub open spec fn advance_post(pre: Runtime, post: Runtime, sid: int, progressed: bool) -> bool {
    if !progressed {
        &&& post == pre
        &&& !pre.can_advance(sid)
    } else {
        &&& pre.can_advance(sid)
        &&& post.streams@.len() == pre.streams@.len()
        &&& forall|i: int|
            0 <= i < pre.streams@.len() && i != sid ==> #[trigger] post.streams@[i]
                == pre.streams@[i]
        &&& post.streams@[sid].ops == pre.streams@[sid].ops
        &&& post.streams@[sid].barriers == pre.streams@[sid].barriers
        &&& post.streams@[sid].alive == pre.streams@[sid].alive
        &&& post.streams@[sid].completed == pre.streams@[sid].completed + 1
        &&& op_applied(pre, post, pre.streams@[sid].ops@[pre.streams@[sid].completed as int])
        &&& post.log == pre.log
        &&& post.fail_next == pre.fail_next
        &&& post.events == pre.events
        &&& post.initialized == pre.initialized
        &&& post.active == pre.active
        &&& post.handles == pre.handles
        &&& post.tensors == pre.tensors
        &&& post.descriptors == pre.descriptors
    }
}

/// A scheduler step preserves well-formedness.
proof fn lemma_wf_advance(pre: Runtime, post: Runtime, sid: int)
    requires
        pre.wf(),
        0 <= sid < pre.streams@.len(),
        advance_post(pre, post, sid, true),
    ensures
        post.wf(),
{
    assert forall|i: int| 0 <= i < post.streams@.len() implies post.stream_wf(i) by {
        assert(pre.stream_wf(i));
        let s = post.streams@[i];
        assert(s.ops == pre.streams@[i].ops);
        assert forall|j: int| 0 <= j < s.ops@.len() implies op_in_bounds(
            post,
            #[trigger] s.ops@[j],
        ) by {
            assert(op_in_bounds(pre, pre.streams@[i].ops@[j]));
        }
        assert forall|j: int| 0 <= j < s.barriers@.len() implies {
            let b = #[trigger] s.barriers@[j];
            &&& b.src_stream < post.streams@.len()
            &&& b.pos <= s.ops@.len()
            &&& s.completed > b.pos ==> post.streams@[b.src_stream as int].completed >= b.src_pos
        } by {
            let b = s.barriers@[j];
            assert(pre.streams@[i].barriers@[j] == b);
            if s.completed > b.pos {
                if i == sid && pre.streams@[i].completed <= b.pos {
                    assert(b.pos == pre.streams@[i].completed);
                    assert(pre.head_unblocked(sid));
                    assert(pre.streams@[b.src_stream as int].completed >= b.src_pos);
                } else {
                    assert(pre.streams@[b.src_stream as int].completed >= b.src_pos);
                }
                if b.src_stream as int == sid {
                    assert(post.streams@[sid].completed > pre.streams@[sid].completed);
                } else {
                    assert(post.streams@[b.src_stream as int] == pre.streams@[
                        b.src_stream as int
                    ]);
                }
            }
        }
    }
}

/// A scheduler step is within the scheduler relation.
proof fn lemma_advance_evolves(pre: Runtime, post: Runtime, sid: int)
    requires
        pre.wf(),
        0 <= sid < pre.streams@.len(),
        advance_post(pre, post, sid, true),
    ensures
        sched_evolves(pre, post),
{
    assert(pre.stream_wf(sid));
    assert(op_in_bounds(pre, pre.streams@[sid].ops@[pre.streams@[sid].completed as int]));
}

impl Runtime {
    /// One step of the mock scheduler: completes the next op of stream
    /// `sid` if the stream has pending work that no barrier holds back,
    /// and reports whether it did.  This is how enqueued asynchronous
    /// work makes progress in the model.
    pub fn advance(&mut self, sid: usize) -> (progressed: bool)
        requires
            old(self).wf(),
            sid < old(self).streams@.len(),
        ensures
            final(self).wf(),
            advance_post(*old(self), *final(self), sid as int, progressed),
            sched_evolves(*old(self), *final(self)),
            progressed ==> final(self).total_pending() == old(self).total_pending() - 1,
    {
        let completed = self.streams[sid].completed;
        let nops = self.streams[sid].ops.len();
        if completed >= nops {
            return false;
        }
        let nbar = self.streams[sid].barriers.len();
        let mut k: usize = 0;
        while k < nbar
            invariant
                *self == *old(self),
                self.wf(),
                sid < self.streams@.len(),
                k <= nbar,
                nbar == self.streams@[sid as int].barriers@.len(),
                completed == self.streams@[sid as int].completed,
                completed < self.streams@[sid as int].ops@.len(),
                forall|j: int|
                    0 <= j < k ==> ((#[trigger] self.streams@[sid as int].barriers@[j]).pos
                        <= completed ==> self.streams@[self.streams@[sid as int].barriers@[
                        j
                    ].src_stream as int].completed >= self.streams@[sid as int].barriers@[
                        j
                    ].src_pos),
            decreases nbar - k,
        {
            let bar = self.streams[sid].barriers[k];
            proof {
                assert(self.stream_wf(sid as int));
            }
            if bar.pos <= completed {
                if self.streams[bar.src_stream].completed < bar.src_pos {
                    proof {
                        assert(!self.head_unblocked(sid as int));
                    }
                    return false;
                }
            }
            k = k + 1;
        }
        proof {
            assert(self.head_unblocked(sid as int));
            assert(self.can_advance(sid as int));
            assert(self.stream_wf(sid as int));
            assert(op_in_bounds(*self, self.streams@[sid as int].ops@[completed as int]));
        }
        let op = self.streams[sid].ops[completed];
        match op {
            StreamOp::Marker => {},
            StreamOp::CopyH2D { dst, dst_off, src, src_off, len } => {
                let tmp = crate::memory::host_read_range(self, src, src_off, len);
                crate::memory::write_range(self, dst, dst_off, tmp.as_slice());
            },
            StreamOp::CopyD2D { dst, dst_off, src, src_off, len } => {
                let tmp = crate::memory::read_range(self, src, src_off, len);
                crate::memory::write_range(self, dst, dst_off, tmp.as_slice());
            },
            StreamOp::CopyD2H { dst, dst_off, src, src_off, len } => {
                let tmp = crate::memory::read_range(self, src, src_off, len);
                crate::memory::host_write_range(self, dst, dst_off, tmp.as_slice());
            },
            StreamOp::FreeOp { alloc } => {
                self.allocs[alloc].alive = false;
            },
        }
        self.streams[sid].completed = completed + 1;
        proof {
            assert(advance_post(*old(self), *self, sid as int, true));
            lemma_wf_advance(*old(self), *self, sid as int);
            lemma_advance_evolves(*old(self), *self, sid as int);
            lemma_pending_update(old(self).streams@, self.streams@, sid as int, 0);
        }
        true
    }

    /// Runs the mock scheduler until no stream can make progress: every
    /// queue is drained or held back by an unsatisfied barrier.  This is
    /// what the blocking synchronization calls do while the host waits.
    pub fn run_all(&mut self)
        requires
            old(self).wf(),
        ensures
            final(self).wf(),
            final(self).quiescent(),
            sched_evolves(*old(self), *final(self)),
    {
        loop
            invariant
                self.wf(),
                sched_evolves(*old(self), *self),
            ensures
                self.wf(),
                self.quiescent(),
                sched_evolves(*old(self), *self),
            decreases self.total_pending(),
        {
            proof {
                lemma_pending_nonneg(self.streams@, 0);
            }
            let ghost snap = *self;
            let n = self.streams.len();
            let mut progressed = false;
            let mut i: usize = 0;
            while i < n
                invariant
                    self.wf(),
                    sched_evolves(snap, *self),
                    sched_evolves(*old(self), *self),
                    i <= n,
                    n == self.streams@.len(),
                    self.total_pending() <= snap.total_pending(),
                    progressed ==> self.total_pending() < snap.total_pending(),
                    !progressed ==> *self == snap,
                    !progressed ==> forall|j: int| 0 <= j < i ==> !self.can_advance(j),
                decreases n - i,
            {
                let ghost before = *self;
                let p = self.advance(i);
                proof {
                    lemma_sched_evolves_trans(snap, before, *self);
                    lemma_sched_evolves_trans(*old(self), before, *self);
                }
                if p {
                    progressed = true;
                }
                i = i + 1;
            }
            if !progressed {
                break;
            }
            proof {
                lemma_pending_nonneg(self.streams@, 0);
            }
        }
    }
}

} // verus!

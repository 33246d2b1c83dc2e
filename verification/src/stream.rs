//! Execution streams: in-order asynchronous command queues.
//!
//! A [`Stream`] owns one native queue.  Its allocation and copy
//! operations enqueue work and return immediately; the work completes
//! when the mock scheduler runs it ([`Runtime::advance`],
//! [`Runtime::run_all`]), in program order, after every barrier placed by
//! [`Stream::wait`] is satisfied.

use vstd::prelude::*;

use crate::device::Device;
use crate::memory::DevBlob;
use crate::memory::HostBlob;
use crate::runtime::core_eq;
use crate::runtime::enqueue_post;
use crate::runtime::eq_except_log_fail;
use crate::runtime::lemma_sched_core_refl;
use crate::runtime::lemma_sched_core_trans;
use crate::runtime::lemma_wf_push_op;
use crate::runtime::lemma_wf_push_stream;
use crate::runtime::lemma_wf_same_shape;
use crate::runtime::native_call;
use crate::runtime::sync_post;
use crate::runtime::Error;
use crate::runtime::NativeCall;
use crate::runtime::Runtime;
use crate::runtime::StreamOp;
use crate::runtime::StreamState;

verus! {

/// An owned handle to one native in-order command queue.
#[derive(Debug)]
pub struct Stream {
    /// The stream's index in the runtime.
    pub id: usize,
}

impl Stream {
    /// Whether this handle refers to a live stream of the runtime.
    pub open spec fn wf(self, rt: Runtime) -> bool {
        &&& self.id < rt.streams@.len()
        &&& rt.streams@[self.id as int].alive
    }
}

/// The relation for successfully creating stream `s`: a fresh, empty,
/// live queue appears and one native call is logged.
pub open spec fn stream_create_post(pre: Runtime, post: Runtime, s: Stream) -> bool {
    &&& s.id == pre.streams@.len()
    &&& post.streams@.len() == pre.streams@.len() + 1
    &&& forall|i: int|
        0 <= i < pre.streams@.len() ==> #[trigger] post.streams@[i] == pre.streams@[i]
    &&& post.streams@.last().alive
    &&& post.streams@.last().ops@.len() == 0
    &&& post.streams@.last().completed == 0
    &&& post.streams@.last().barriers@.len() == 0
    &&& post.log@ == pre.log@.push(NativeCall::StreamCreate)
    &&& !post.fail_next
    &&& post.allocs == pre.allocs
    &&& post.host_allocs == pre.host_allocs
    &&& core_eq(pre, post)
}

/// The relation for a successful stream-ordered allocation of `n` bytes
/// on stream `sid` returning handle `b`: a fresh allocation appears, a
/// marker op joins the stream's queue, and one native call is logged.
pub open spec fn stream_malloc_post(
    pre: Runtime,
    post: Runtime,
    sid: int,
    b: DevBlob,
    n: nat,
) -> bool {
    if n == 0 {
        &&& post == pre
        &&& b == (DevBlob { alloc: None, offset: 0, nbytes: 0 })
    } else {
        &&& b.alloc matches Some(a) && a == pre.allocs@.len()
        &&& b.offset == 0
        &&& b.nbytes == n
        &&& post.allocs@.len() == pre.allocs@.len() + 1
        &&& forall|i: int|
            0 <= i < pre.allocs@.len() ==> #[trigger] post.allocs@[i] == pre.allocs@[i]
        &&& post.allocs@.last().refs == 1
        &&& post.allocs@.last().alive
        &&& post.allocs@.last().data@.len() == n
        &&& post.streams@.len() == pre.streams@.len()
        &&& forall|i: int|
            0 <= i < pre.streams@.len() && i != sid ==> #[trigger] post.streams@[i]
                == pre.streams@[i]
        &&& post.streams@[sid].ops@ == pre.streams@[sid].ops@.push(StreamOp::Marker)
        &&& post.streams@[sid].completed == pre.streams@[sid].completed
        &&& post.streams@[sid].barriers == pre.streams@[sid].barriers
        &&& post.streams@[sid].alive == pre.streams@[sid].alive
        &&& post.log@ == pre.log@.push(NativeCall::MallocAsync)
        &&& !post.fail_next
        &&& post.host_allocs == pre.host_allocs
        &&& core_eq(pre, post)
    }
}

/// The relation for a successful stream-ordered allocate-and-upload of
/// `data` on stream `sid` returning handle `b`: a fresh allocation and a
/// staged copy of `data` appear, a copy op from the staging onto the
/// allocation joins the stream's queue, and two native calls are logged.
pub open spec fn stream_from_host_post(
    pre: Runtime,
    post: Runtime,
    sid: int,
    b: DevBlob,
    data: Seq<u8>,
) -> bool {
    if data.len() == 0 {
        &&& post == pre
        &&& b == (DevBlob { alloc: None, offset: 0, nbytes: 0 })
    } else {
        &&& b.alloc matches Some(a) && a == pre.allocs@.len()
        &&& b.offset == 0
        &&& b.nbytes == data.len()
        &&& post.allocs@.len() == pre.allocs@.len() + 1
        &&& forall|i: int|
            0 <= i < pre.allocs@.len() ==> #[trigger] post.allocs@[i] == pre.allocs@[i]
        &&& post.allocs@.last().refs == 1
        &&& post.allocs@.last().alive
        &&& post.allocs@.last().data@.len() == data.len()
        &&& post.host_allocs@.len() == pre.host_allocs@.len() + 1
        &&& forall|i: int|
            0 <= i < pre.host_allocs@.len() ==> #[trigger] post.host_allocs@[i]
                == pre.host_allocs@[i]
        &&& post.host_allocs@.last().data@ == data
        &&& post.streams@.len() == pre.streams@.len()
        &&& forall|i: int|
            0 <= i < pre.streams@.len() && i != sid ==> #[trigger] post.streams@[i]
                == pre.streams@[i]
        &&& post.streams@[sid].ops@ == pre.streams@[sid].ops@.push(
            StreamOp::CopyH2D {
                dst: (pre.allocs@.len() as usize),
                dst_off: 0,
                src: (pre.host_allocs@.len() as usize),
                src_off: 0,
                len: (data.len() as usize),
            },
        )
        &&& post.streams@[sid].completed == pre.streams@[sid].completed
        &&& post.streams@[sid].barriers == pre.streams@[sid].barriers
        &&& post.streams@[sid].alive == pre.streams@[sid].alive
        &&& post.log@ == pre.log@.push(NativeCall::MallocAsync).push(NativeCall::MemcpyAsync)
        &&& !post.fail_next
        &&& core_eq(pre, post)
    }
}

/// The relation for a successful deferred release of handle `b` through
/// stream `sid`: the share count drops by one; exactly when it reaches
/// zero, one stream-ordered free call is logged and a free op joins the
/// stream's queue — the allocation stays alive until that op completes.
pub open spec fn stream_free_post(pre: Runtime, post: Runtime, sid: int, b: DevBlob) -> bool {
    match b.alloc {
        Option::None => post == pre,
        Option::Some(a) => {
            let r0 = pre.allocs@[a as int].refs;
            &&& post.allocs@.len() == pre.allocs@.len()
            &&& forall|i: int|
                0 <= i < pre.allocs@.len() && i != a ==> #[trigger] post.allocs@[i]
                    == pre.allocs@[i]
            &&& post.allocs@[a as int].refs == r0 - 1
            &&& post.allocs@[a as int].data == pre.allocs@[a as int].data
            &&& post.allocs@[a as int].alive == pre.allocs@[a as int].alive
            &&& if r0 == 1 {
                &&& post.log@ == pre.log@.push(NativeCall::FreeAsync)
                &&& !post.fail_next
                &&& post.streams@.len() == pre.streams@.len()
                &&& (forall|i: int|
                    0 <= i < pre.streams@.len() && i != sid ==> #[trigger] post.streams@[i]
                        == pre.streams@[i])
                &&& post.streams@[sid].ops@ == pre.streams@[sid].ops@.push(
                    StreamOp::FreeOp { alloc: a },
                )
                &&& post.streams@[sid].completed == pre.streams@[sid].completed
                &&& post.streams@[sid].barriers == pre.streams@[sid].barriers
                &&& post.streams@[sid].alive == pre.streams@[sid].alive
            } else {
                &&& post.log == pre.log
                &&& post.fail_next == pre.fail_next
                &&& post.streams == pre.streams
            }
            &&& post.host_allocs == pre.host_allocs
            &&& core_eq(pre, post)
        },
    }
}

impl Device {
    /// Creates a new execution stream on this device.
    pub fn stream(&self, rt: &mut Runtime) -> (r: Result<Stream, Error>)
        requires
            old(rt).wf(),
        ensures
            final(rt).wf(),
            r is Ok <==> !old(rt).fail_next,
            r matches Ok(s) ==> stream_create_post(*old(rt), *final(rt), s) && s.wf(*final(rt)),
            r is Err ==> r == Result::<Stream, Error>::Err(Error::NativeFailure)
                && final(rt).log@ == old(rt).log@.push(NativeCall::StreamCreate)
                && !final(rt).fail_next
                && eq_except_log_fail(*old(rt), *final(rt)),
    {
        native_call(rt, NativeCall::StreamCreate)?;
        let id = rt.streams.len();
        rt.streams.push(
            StreamState { alive: true, ops: Vec::new(), completed: 0, barriers: Vec::new() },
        );
        proof {
            lemma_wf_push_stream(*old(rt), *rt);
        }
        Ok(Stream { id })
    }
}

impl Stream {
    /// Destroys this stream.  The native destroy call blocks until it
    /// returns; a failing status is unrecoverable for the program and is
    /// reported as an error for the embedding to abort on.
    pub fn destroy(self, rt: &mut Runtime) -> (r: Result<(), Error>)
        requires
            old(rt).wf(),
            self.wf(*old(rt)),
        ensures
            final(rt).wf(),
            final(rt).log@ == old(rt).log@.push(NativeCall::StreamDestroy),
            !final(rt).fail_next,
            r is Ok <==> !old(rt).fail_next,
            r is Ok ==> !final(rt).streams@[self.id as int].alive
                && final(rt).streams@.len() == old(rt).streams@.len()
                && (forall|i: int|
                    0 <= i < old(rt).streams@.len() && i != self.id
                        ==> #[trigger] final(rt).streams@[i] == old(rt).streams@[i])
                && final(rt).streams@[self.id as int].ops == old(rt).streams@[
                    self.id as int
                ].ops
                && final(rt).streams@[self.id as int].completed == old(rt).streams@[
                    self.id as int
                ].completed
                && final(rt).streams@[self.id as int].barriers == old(rt).streams@[
                    self.id as int
                ].barriers
                && final(rt).allocs == old(rt).allocs
                && final(rt).host_allocs == old(rt).host_allocs
                && core_eq(*old(rt), *final(rt)),
            r is Err ==> r == Result::<(), Error>::Err(Error::NativeFailure)
                && eq_except_log_fail(*old(rt), *final(rt)),
    {
        native_call(rt, NativeCall::StreamDestroy)?;
        rt.streams[self.id].alive = false;
        proof {
            lemma_wf_same_shape(*old(rt), *rt);
        }
        Ok(())
    }

    /// Blocks the host until all work previously enqueued on this stream
    /// has completed.  In the model the scheduler runs until nothing can
    /// make progress; if this stream's queue is then still not drained,
    /// the wait could never finish, which is reported as a deadlock.
    pub fn synchronize(&self, rt: &mut Runtime) -> (r: Result<(), Error>)
        requires
            old(rt).wf(),
            self.wf(*old(rt)),
        ensures
            final(rt).wf(),
            final(rt).log@ == old(rt).log@.push(NativeCall::StreamSynchronize),
            !final(rt).fail_next,
            old(rt).fail_next ==> r == Result::<(), Error>::Err(Error::NativeFailure)
                && eq_except_log_fail(*old(rt), *final(rt)),
            !old(rt).fail_next ==> sync_post(*old(rt), *final(rt), NativeCall::StreamSynchronize)
                && (r is Ok <==> final(rt).streams@[self.id as int].completed
                == final(rt).streams@[self.id as int].ops@.len())
                && (r is Err ==> r == Result::<(), Error>::Err(Error::Deadlock)),
    {
        let ghost pre = *old(rt);
        native_call(rt, NativeCall::StreamSynchronize)?;
        let ghost mid = *rt;
        rt.run_all();
        proof {
            lemma_sched_core_refl(pre, mid);
            lemma_sched_core_trans(pre, mid, *rt);
        }
        if rt.streams[self.id].completed == rt.streams[self.id].ops.len() {
            Ok(())
        } else {
            Err(Error::Deadlock)
        }
    }

    /// Enqueues `nbytes` bytes of stream-ordered device allocation.  The
    /// handle is returned immediately; the allocation's marker op
    /// completes when the scheduler reaches it.  Zero bytes never touch
    /// the native layer.
    pub fn malloc(&self, rt: &mut Runtime, nbytes: usize) -> (r: Result<DevBlob, Error>)
        requires
            old(rt).wf(),
            self.wf(*old(rt)),
        ensures
            final(rt).wf(),
            r is Ok <==> (nbytes == 0 || !old(rt).fail_next),
            r matches Ok(b) ==> stream_malloc_post(
                *old(rt),
                *final(rt),
                self.id as int,
                b,
                nbytes as nat,
            ) && b.wf(*final(rt)),
            r is Err ==> r == Result::<DevBlob, Error>::Err(Error::NativeFailure)
                && final(rt).log@ == old(rt).log@.push(NativeCall::MallocAsync)
                && !final(rt).fail_next
                && eq_except_log_fail(*old(rt), *final(rt)),
    {
        if nbytes == 0 {
            return Ok(DevBlob { alloc: None, offset: 0, nbytes: 0 });
        }
        native_call(rt, NativeCall::MallocAsync)?;
        let ghost mid = *rt;
        let a = rt.allocs.len();
        rt.allocs.push(
            crate::runtime::Alloc { data: crate::memory::zeroed(nbytes), refs: 1, alive: true },
        );
        proof {
            crate::runtime::lemma_wf_frame_mem(mid, *rt);
        }
        let ghost mid2 = *rt;
        rt.streams[self.id].ops.push(StreamOp::Marker);
        proof {
            lemma_wf_push_op(mid2, *rt, self.id as int, StreamOp::Marker);
        }
        Ok(DevBlob { alloc: Some(a), offset: 0, nbytes })
    }

    /// Enqueues a stream-ordered allocation of `data`'s size and an
    /// asynchronous upload of `data` into it.  The model stages a copy of
    /// `data`; the device region holds it once the enqueued copy op
    /// completes.  Empty data never touches the native layer.
    pub fn from_host(&self, rt: &mut Runtime, data: &[u8]) -> (r: Result<DevBlob, Error>)
        requires
            old(rt).wf(),
            self.wf(*old(rt)),
        ensures
            final(rt).wf(),
            r is Ok <==> (data@.len() == 0 || !old(rt).fail_next),
            r matches Ok(b) ==> stream_from_host_post(
                *old(rt),
                *final(rt),
                self.id as int,
                b,
                data@,
            ) && b.wf(*final(rt)),
            r is Err ==> r == Result::<DevBlob, Error>::Err(Error::NativeFailure)
                && final(rt).log@ == old(rt).log@.push(NativeCall::MallocAsync)
                && !final(rt).fail_next
                && eq_except_log_fail(*old(rt), *final(rt)),
    {
        let nbytes = data.len();
        if nbytes == 0 {
            return Ok(DevBlob { alloc: None, offset: 0, nbytes: 0 });
        }
        native_call(rt, NativeCall::MallocAsync)?;
        native_call(rt, NativeCall::MemcpyAsync)?;
        let ghost mid = *rt;
        let a = rt.allocs.len();
        rt.allocs.push(
            crate::runtime::Alloc { data: crate::memory::zeroed(nbytes), refs: 1, alive: true },
        );
        let h = rt.host_allocs.len();
        rt.host_allocs.push(
            crate::runtime::HostAlloc { data: crate::memory::copy_bytes(data), alive: true },
        );
        proof {
            crate::runtime::lemma_wf_frame_mem(mid, *rt);
        }
        let ghost mid2 = *rt;
        let op = StreamOp::CopyH2D { dst: a, dst_off: 0, src: h, src_off: 0, len: nbytes };
        rt.streams[self.id].ops.push(op);
        proof {
            lemma_wf_push_op(mid2, *rt, self.id as int, op);
        }
        Ok(DevBlob { alloc: Some(a), offset: 0, nbytes })
    }

    /// Hands `blob` to this stream for a deferred release.  The share
    /// count drops at once; exactly when it reaches zero, the native
    /// stream-ordered free call is made and a free op is enqueued, so the
    /// allocation actually dies only when the stream reaches that point.
    /// When other handles still share the allocation, nothing is enqueued.
    /// The sentinel is released without any native call.
    pub fn free(&self, rt: &mut Runtime, blob: DevBlob) -> (r: Result<(), Error>)
        requires
            old(rt).wf(),
            self.wf(*old(rt)),
            blob.wf(*old(rt)),
        ensures
            final(rt).wf(),
            r is Ok <==> match blob.alloc {
                Option::None => true,
                Option::Some(a) => old(rt).allocs@[a as int].refs > 1 || !old(rt).fail_next,
            },
            r is Ok ==> stream_free_post(*old(rt), *final(rt), self.id as int, blob),
            r is Err ==> r == Result::<(), Error>::Err(Error::NativeFailure)
                && (blob.alloc matches Some(a) && old(rt).allocs@[a as int].refs == 1
                && final(rt).allocs@.len() == old(rt).allocs@.len()
                && final(rt).allocs@[a as int].refs == 0
                && final(rt).allocs@[a as int].alive
                && (forall|i: int|
                    0 <= i < old(rt).allocs@.len() && i != a ==> #[trigger] final(rt).allocs@[i]
                        == old(rt).allocs@[i])
                && final(rt).log@ == old(rt).log@.push(NativeCall::FreeAsync)
                && !final(rt).fail_next
                && final(rt).host_allocs == old(rt).host_allocs
                && final(rt).streams == old(rt).streams
                && core_eq(*old(rt), *final(rt))),
    {
        match blob.alloc {
            None => Ok(()),
            Some(a) => {
                let refs = rt.allocs[a].refs;
                rt.allocs[a].refs = refs - 1;
                proof {
                    crate::runtime::lemma_wf_frame_mem(*old(rt), *rt);
                }
                if refs == 1 {
                    let ghost before = *rt;
                    let called = native_call(rt, NativeCall::FreeAsync);
                    called?;
                    let ghost mid2 = *rt;
                    let op = StreamOp::FreeOp { alloc: a };
                    rt.streams[self.id].ops.push(op);
                    proof {
                        lemma_wf_push_op(mid2, *rt, self.id as int, op);
                    }
                    Ok(())
                } else {
                    Ok(())
                }
            },
        }
    }

    /// Enqueues a device-to-device copy of `src`'s range onto `dst`'s
    /// range.  The lengths must match; a zero-length copy never touches
    /// the native layer.
    pub fn memcpy_d2d(&self, rt: &mut Runtime, dst: &DevBlob, src: &DevBlob) -> (r: Result<
        (),
        Error,
    >)
        requires
            old(rt).wf(),
            self.wf(*old(rt)),
            dst.wf(*old(rt)),
            src.wf(*old(rt)),
        ensures
            final(rt).wf(),
            r is Ok <==> dst.nbytes == src.nbytes && (dst.nbytes == 0 || !old(rt).fail_next),
            r is Ok ==> (if dst.nbytes == 0 {
                *final(rt) == *old(rt)
            } else {
                enqueue_post(
                    *old(rt),
                    *final(rt),
                    self.id as int,
                    StreamOp::CopyD2D {
                        dst: dst.alloc.unwrap(),
                        dst_off: dst.offset,
                        src: src.alloc.unwrap(),
                        src_off: src.offset,
                        len: dst.nbytes,
                    },
                    NativeCall::MemcpyAsync,
                )
            }),
            r is Err ==> r == Result::<(), Error>::Err(Error::SizeMismatch) && dst.nbytes
                != src.nbytes && *final(rt) == *old(rt) || r == Result::<(), Error>::Err(
                Error::NativeFailure,
            ) && old(rt).fail_next && final(rt).log@ == old(rt).log@.push(NativeCall::MemcpyAsync)
                && !final(rt).fail_next && eq_except_log_fail(*old(rt), *final(rt)),
    {
        if dst.nbytes != src.nbytes {
            return Err(Error::SizeMismatch);
        }
        if dst.nbytes == 0 {
            return Ok(());
        }
        native_call(rt, NativeCall::MemcpyAsync)?;
        let da = match dst.alloc {
            Some(da) => da,
            None => {
                proof {
                    assert(false);
                }
                return Ok(());
            },
        };
        let sa = match src.alloc {
            Some(sa) => sa,
            None => {
                proof {
                    assert(false);
                }
                return Ok(());
            },
        };
        let ghost mid = *rt;
        let op = StreamOp::CopyD2D {
            dst: da,
            dst_off: dst.offset,
            src: sa,
            src_off: src.offset,
            len: dst.nbytes,
        };
        rt.streams[self.id].ops.push(op);
        proof {
            lemma_wf_push_op(mid, *rt, self.id as int, op);
        }
        Ok(())
    }

    /// Enqueues an upload of host region `src` onto `dst`'s range.  The
    /// lengths must match; the bytes read are those `src` holds when the
    /// enqueued op completes.  A zero-length copy never touches the
    /// native layer.
    pub fn memcpy_h2d(&self, rt: &mut Runtime, dst: &DevBlob, src: &HostBlob) -> (r: Result<
        (),
        Error,
    >)
        requires
            old(rt).wf(),
            self.wf(*old(rt)),
            dst.wf(*old(rt)),
            src.wf(*old(rt)),
        ensures
            final(rt).wf(),
            r is Ok <==> dst.nbytes == src.nbytes && (dst.nbytes == 0 || !old(rt).fail_next),
            r is Ok ==> (if dst.nbytes == 0 {
                *final(rt) == *old(rt)
            } else {
                enqueue_post(
                    *old(rt),
                    *final(rt),
                    self.id as int,
                    StreamOp::CopyH2D {
                        dst: dst.alloc.unwrap(),
                        dst_off: dst.offset,
                        src: src.host.unwrap(),
                        src_off: 0,
                        len: dst.nbytes,
                    },
                    NativeCall::MemcpyAsync,
                )
            }),
            r is Err ==> r == Result::<(), Error>::Err(Error::SizeMismatch) && dst.nbytes
                != src.nbytes && *final(rt) == *old(rt) || r == Result::<(), Error>::Err(
                Error::NativeFailure,
            ) && old(rt).fail_next && final(rt).log@ == old(rt).log@.push(NativeCall::MemcpyAsync)
                && !final(rt).fail_next && eq_except_log_fail(*old(rt), *final(rt)),
    {
        if dst.nbytes != src.nbytes {
            return Err(Error::SizeMismatch);
        }
        if dst.nbytes == 0 {
            return Ok(());
        }
        native_call(rt, NativeCall::MemcpyAsync)?;
        let da = match dst.alloc {
            Some(da) => da,
            None => {
                proof {
                    assert(false);
                }
                return Ok(());
            },
        };
        let sh = match src.host {
            Some(sh) => sh,
            None => {
                proof {
                    assert(false);
                }
                return Ok(());
            },
        };
        let ghost mid = *rt;
        let op = StreamOp::CopyH2D {
            dst: da,
            dst_off: dst.offset,
            src: sh,
            src_off: 0,
            len: dst.nbytes,
        };
        rt.streams[self.id].ops.push(op);
        proof {
            lemma_wf_push_op(mid, *rt, self.id as int, op);
        }
        Ok(())
    }

    /// Enqueues a download of `src`'s range into host region `dst`.  The
    /// lengths must match; `dst` holds the bytes once the enqueued op
    /// completes.  A zero-length copy never touches the native layer.
    pub fn memcpy_d2h(&self, rt: &mut Runtime, dst: &HostBlob, src: &DevBlob) -> (r: Result<
        (),
        Error,
    >)
        requires
            old(rt).wf(),
            self.wf(*old(rt)),
            dst.wf(*old(rt)),
            src.wf(*old(rt)),
        ensures
            final(rt).wf(),
            r is Ok <==> dst.nbytes == src.nbytes && (dst.nbytes == 0 || !old(rt).fail_next),
            r is Ok ==> (if dst.nbytes == 0 {
                *final(rt) == *old(rt)
            } else {
                enqueue_post(
                    *old(rt),
                    *final(rt),
                    self.id as int,
                    StreamOp::CopyD2H {
                        dst: dst.host.unwrap(),
                        dst_off: 0,
                        src: src.alloc.unwrap(),
                        src_off: src.offset,
                        len: dst.nbytes,
                    },
                    NativeCall::MemcpyAsync,
                )
            }),
            r is Err ==> r == Result::<(), Error>::Err(Error::SizeMismatch) && dst.nbytes
                != src.nbytes && *final(rt) == *old(rt) || r == Result::<(), Error>::Err(
                Error::NativeFailure,
            ) && old(rt).fail_next && final(rt).log@ == old(rt).log@.push(NativeCall::MemcpyAsync)
                && !final(rt).fail_next && eq_except_log_fail(*old(rt), *final(rt)),
    {
        if dst.nbytes != src.nbytes {
            return Err(Error::SizeMismatch);
        }
        if dst.nbytes == 0 {
            return Ok(());
        }
        native_call(rt, NativeCall::MemcpyAsync)?;
        let dh = match dst.host {
            Some(dh) => dh,
            None => {
                proof {
                    assert(false);
                }
                return Ok(());
            },
        };
        let sa = match src.alloc {
            Some(sa) => sa,
            None => {
                proof {
                    assert(false);
                }
                return Ok(());
            },
        };
        let ghost mid = *rt;
        let op = StreamOp::CopyD2H {
            dst: dh,
            dst_off: 0,
            src: sa,
            src_off: src.offset,
            len: dst.nbytes,
        };
        rt.streams[self.id].ops.push(op);
        proof {
            lemma_wf_push_op(mid, *rt, self.id as int, op);
        }
        Ok(())
    }

    /// The device the runtime currently has active.
    ///
    /// This reflects the ambient active device at call time, not
    /// necessarily the device this stream was created against: a program
    /// that activates another device between the stream's creation and
    /// this call gets that other device.
    pub fn get_device(&self, rt: &mut Runtime) -> (r: Result<Device, Error>)
        ensures
            old(rt).wf() ==> final(rt).wf(),
            final(rt).log@ == old(rt).log@.push(NativeCall::GetDevice),
            !final(rt).fail_next,
            eq_except_log_fail(*old(rt), *final(rt)),
            r is Ok <==> !old(rt).fail_next,
            r matches Ok(d) ==> d == old(rt).active,
            r is Err ==> r == Result::<Device, Error>::Err(Error::NativeFailure),
    {
        native_call(rt, NativeCall::GetDevice)?;
        Ok(rt.active)
    }
}

} // verus!

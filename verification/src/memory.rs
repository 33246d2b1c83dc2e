//! Device and host memory regions.
//!
//! A [`DevBlob`] is a shared-owning handle over a contiguous device
//! allocation: handles produced by [`DevBlob::slice`] share the underlying
//! allocation, and the native free call is issued exactly once, when the
//! last sharing handle is released.  A zero-length region is a sentinel
//! that never touches the native allocator.  A [`HostBlob`] is a
//! single-owner pinned host allocation.

use vstd::prelude::*;

use crate::device::Device;
use crate::runtime::lemma_wf_frame_mem;
use crate::runtime::native_call;
use crate::runtime::non_mem_eq;
use crate::runtime::Alloc;
use crate::runtime::Error;
use crate::runtime::NativeCall;
use crate::runtime::Runtime;

verus! {

/// A marker for one byte of device memory, distinguishing device data from
/// host data in signatures that need the distinction.
#[derive(Clone, Copy, PartialEq, Eq, Structural, Debug)]
pub struct DevByte(pub u8);

/// A shared-owning handle over a range of one device allocation.
///
/// `alloc` names the underlying allocation in the runtime; `None` is the
/// sentinel of a zero-length region.  The handle covers the byte range
/// `[offset, offset + nbytes)` of the allocation.
#[derive(Debug)]
pub struct DevBlob {
    /// The underlying allocation, or `None` for the zero-length sentinel.
    pub alloc: Option<usize>,
    /// Byte offset of this handle's range within the allocation.
    pub offset: usize,
    /// Byte length of this handle's range.
    pub nbytes: usize,
}

impl DevBlob {
    /// Whether this handle is a live, in-bounds reference into the runtime:
    /// the allocation exists, has not been freed, counts this handle, and
    /// contains the handle's range.
    pub open spec fn wf(self, rt: Runtime) -> bool {
        match self.alloc {
            Option::None => self.nbytes == 0 && self.offset == 0,
            Option::Some(a) => {
                &&& a < rt.allocs@.len()
                &&& rt.allocs@[a as int].alive
                &&& rt.allocs@[a as int].refs >= 1
                &&& self.offset + self.nbytes <= rt.allocs@[a as int].data@.len()
            },
        }
    }

    /// The bytes this handle ranges over, as stored in the runtime.
    pub open spec fn view_of(self, rt: Runtime) -> Seq<u8> {
        match self.alloc {
            Option::None => Seq::empty(),
            Option::Some(a) => rt.allocs@[a as int].data@.subrange(
                self.offset as int,
                self.offset + self.nbytes,
            ),
        }
    }
}

/// The relation between the runtime before and after a successful
/// synchronous allocation of `n` bytes returning handle `b`: zero bytes
/// leave the runtime untouched; otherwise exactly one native allocation
/// call is logged and a fresh allocation with a single reference appears.
pub open spec fn malloc_post(pre: Runtime, post: Runtime, b: DevBlob, n: nat) -> bool {
    if n == 0 {
        &&& post == pre
        &&& b == (DevBlob { alloc: None, offset: 0, nbytes: 0 })
    } else {
        &&& b.alloc matches Some(a) && a == pre.allocs@.len()
        &&& b.offset == 0
        &&& b.nbytes == n
        &&& post.allocs@.len() == pre.allocs@.len() + 1
        &&& forall|i: int|
            0 <= i < pre.allocs@.len() ==> #[trigger] post.allocs@[i] == pre.allocs@[i]
        &&& post.allocs@.last().refs == 1
        &&& post.allocs@.last().alive
        &&& post.allocs@.last().data@.len() == n
        &&& post.log@ == pre.log@.push(NativeCall::Malloc)
        &&& !post.fail_next
        &&& post.host_allocs == pre.host_allocs
        &&& non_mem_eq(pre, post)
    }
}

/// The relation for a successful synchronous allocate-and-copy of `data`
/// returning handle `b`: like [`malloc_post`], but the fresh allocation
/// holds `data` and a native copy call follows the allocation call.
pub open spec fn from_host_post(pre: Runtime, post: Runtime, b: DevBlob, data: Seq<u8>) -> bool {
    if data.len() == 0 {
        &&& post == pre
        &&& b == (DevBlob { alloc: None, offset: 0, nbytes: 0 })
    } else {
        &&& b.alloc matches Some(a) && a == pre.allocs@.len()
        &&& b.offset == 0
        &&& b.nbytes == data.len()
        &&& post.allocs@.len() == pre.allocs@.len() + 1
        &&& forall|i: int|
            0 <= i < pre.allocs@.len() ==> #[trigger] post.allocs@[i] == pre.allocs@[i]
        &&& post.allocs@.last().refs == 1
        &&& post.allocs@.last().alive
        &&& post.allocs@.last().data@ == data
        &&& post.log@ == pre.log@.push(NativeCall::Malloc).push(NativeCall::Memcpy)
        &&& !post.fail_next
        &&& post.host_allocs == pre.host_allocs
        &&& non_mem_eq(pre, post)
    }
}

/// The relation for releasing handle `b`: a sentinel is a no-op; otherwise
/// the share count drops by one, and exactly when it reaches zero the
/// native free call is logged and the allocation stops being alive.
pub open spec fn release_post(pre: Runtime, post: Runtime, b: DevBlob) -> bool {
    match b.alloc {
        Option::None => post == pre,
        Option::Some(a) => {
            let r0 = pre.allocs@[a as int].refs;
            &&& post.allocs@.len() == pre.allocs@.len()
            &&& forall|i: int|
                0 <= i < pre.allocs@.len() && i != a ==> #[trigger] post.allocs@[i]
                    == pre.allocs@[i]
            &&& post.allocs@[a as int].refs == r0 - 1
            &&& post.allocs@[a as int].data == pre.allocs@[a as int].data
            &&& if r0 == 1 {
                &&& !post.allocs@[a as int].alive
                &&& post.log@ == pre.log@.push(NativeCall::Free)
                &&& !post.fail_next
            } else {
                &&& post.allocs@[a as int].alive == pre.allocs@[a as int].alive
                &&& post.log == pre.log
                &&& post.fail_next == pre.fail_next
            }
            &&& post.host_allocs == pre.host_allocs
            &&& non_mem_eq(pre, post)
        },
    }
}

/// The relation for slicing `parent` into `child` at `off` with length
/// `n`: no native call occurs; a real allocation's share count grows by
/// one, and nothing else changes.
pub open spec fn slice_post(
    pre: Runtime,
    post: Runtime,
    parent: DevBlob,
    child: DevBlob,
    off: nat,
    n: nat,
) -> bool {
    &&& child.alloc == parent.alloc
    &&& child.offset == off
    &&& child.nbytes == n
    &&& match parent.alloc {
        Option::None => post == pre,
        Option::Some(a) => {
            &&& post.allocs@.len() == pre.allocs@.len()
            &&& forall|i: int|
                0 <= i < pre.allocs@.len() && i != a ==> #[trigger] post.allocs@[i]
                    == pre.allocs@[i]
            &&& post.allocs@[a as int].refs == pre.allocs@[a as int].refs + 1
            &&& post.allocs@[a as int].data == pre.allocs@[a as int].data
            &&& post.allocs@[a as int].alive == pre.allocs@[a as int].alive
            &&& post.log == pre.log
            &&& post.fail_next == pre.fail_next
            &&& post.host_allocs == pre.host_allocs
            &&& non_mem_eq(pre, post)
        },
    }
}

impl Device {
    /// Synchronously allocates `nbytes` bytes of device memory.
    ///
    /// A request for zero bytes never invokes the native allocator: it
    /// returns the sentinel region, whose view is empty and whose release
    /// never invokes the native free call.
    pub fn malloc(&self, rt: &mut Runtime, nbytes: usize) -> (r: Result<DevBlob, Error>)
        ensures
            old(rt).wf() ==> final(rt).wf(),
            r is Ok <==> (nbytes == 0 || !old(rt).fail_next),
            r matches Ok(b) ==> malloc_post(*old(rt), *final(rt), b, nbytes as nat)
                && b.wf(*final(rt)),
            r is Err ==> r == Result::<DevBlob, Error>::Err(Error::NativeFailure)
                && final(rt).log@ == old(rt).log@.push(NativeCall::Malloc)
                && !final(rt).fail_next
                && crate::runtime::eq_except_log_fail(*old(rt), *final(rt)),
    {
        if nbytes == 0 {
            return Ok(DevBlob { alloc: None, offset: 0, nbytes: 0 });
        }
        native_call(rt, NativeCall::Malloc)?;
        let data = zeroed(nbytes);
        let a = rt.allocs.len();
        rt.allocs.push(Alloc { data, refs: 1, alive: true });
        proof {
            if old(rt).wf() {
                lemma_wf_frame_mem(*old(rt), *rt);
            }
        }
        Ok(DevBlob { alloc: Some(a), offset: 0, nbytes })
    }

    /// Synchronously allocates device memory of `data`'s size and copies
    /// `data` into it.
    ///
    /// Empty data never touches the native layer and yields the sentinel
    /// region.
    pub fn from_host(&self, rt: &mut Runtime, data: &[u8]) -> (r: Result<DevBlob, Error>)
        ensures
            old(rt).wf() ==> final(rt).wf(),
            r is Ok <==> (data@.len() == 0 || !old(rt).fail_next),
            r matches Ok(b) ==> from_host_post(*old(rt), *final(rt), b, data@)
                && b.wf(*final(rt))
                && b.view_of(*final(rt)) == data@,
            r is Err ==> r == Result::<DevBlob, Error>::Err(Error::NativeFailure)
                && final(rt).log@ == old(rt).log@.push(NativeCall::Malloc)
                && !final(rt).fail_next
                && crate::runtime::eq_except_log_fail(*old(rt), *final(rt)),
    {
        if data.len() == 0 {
            return Ok(DevBlob { alloc: None, offset: 0, nbytes: 0 });
        }
        native_call(rt, NativeCall::Malloc)?;
        native_call(rt, NativeCall::Memcpy)?;
        let copied = copy_bytes(data);
        let a = rt.allocs.len();
        let nbytes = data.len();
        rt.allocs.push(Alloc { data: copied, refs: 1, alive: true });
        proof {
            if old(rt).wf() {
                lemma_wf_frame_mem(*old(rt), *rt);
            }
            assert(rt.allocs@.last().data@.subrange(0, data@.len() as int) =~= data@);
        }
        Ok(DevBlob { alloc: Some(a), offset: 0, nbytes })
    }
}

/// The relation for a successful copy of `bytes` into `dst`'s range:
/// nothing happens for an empty range; otherwise one native copy call is
/// logged and only the destination allocation's contents change.
pub open spec fn copy_into_post(pre: Runtime, post: Runtime, dst: DevBlob, bytes: Seq<u8>) -> bool {
    if dst.nbytes == 0 {
        post == pre
    } else {
        &&& dst.alloc matches Some(a)
        &&& post.allocs@.len() == pre.allocs@.len()
        &&& forall|i: int|
            0 <= i < pre.allocs@.len() && i != dst.alloc.unwrap() ==> #[trigger] post.allocs@[i]
                == pre.allocs@[i]
        &&& post.allocs@[dst.alloc.unwrap() as int].data@ == crate::runtime::spliced(
            pre.allocs@[dst.alloc.unwrap() as int].data@,
            dst.offset as int,
            bytes,
        )
        &&& post.allocs@[dst.alloc.unwrap() as int].refs == pre.allocs@[
            dst.alloc.unwrap() as int
        ].refs
        &&& post.allocs@[dst.alloc.unwrap() as int].alive == pre.allocs@[
            dst.alloc.unwrap() as int
        ].alive
        &&& post.log@ == pre.log@.push(NativeCall::Memcpy)
        &&& !post.fail_next
        &&& post.host_allocs == pre.host_allocs
        &&& non_mem_eq(pre, post)
    }
}

/// The relation for a successful device-to-host copy out of `src` that
/// produced the bytes `out`.
pub open spec fn d2h_post(pre: Runtime, post: Runtime, src: DevBlob, out: Seq<u8>) -> bool {
    &&& out == src.view_of(pre)
    &&& if src.nbytes == 0 {
        post == pre
    } else {
        &&& post.log@ == pre.log@.push(NativeCall::Memcpy)
        &&& !post.fail_next
        &&& crate::runtime::eq_except_log_fail(pre, post)
    }
}

impl Device {
    /// Synchronously copies `src`'s range onto `dst`'s range, device to
    /// device.  The two ranges must have the same byte length; a mismatch
    /// is reported before any native call.  A zero-length copy never
    /// touches the native layer.  The ranges may overlap: the result is
    /// as if the source range were read in full first.
    pub fn memcpy_d2d(&self, rt: &mut Runtime, dst: &DevBlob, src: &DevBlob) -> (r: Result<
        (),
        Error,
    >)
        requires
            dst.wf(*old(rt)),
            src.wf(*old(rt)),
        ensures
            old(rt).wf() ==> final(rt).wf(),
            r is Ok <==> dst.nbytes == src.nbytes && (dst.nbytes == 0 || !old(rt).fail_next),
            r is Ok ==> copy_into_post(*old(rt), *final(rt), *dst, src.view_of(*old(rt)))
                && dst.view_of(*final(rt)) == src.view_of(*old(rt)),
            r is Err ==> r == Result::<(), Error>::Err(Error::SizeMismatch)
                && dst.nbytes != src.nbytes && *final(rt) == *old(rt) || r == Result::<
                (),
                Error,
            >::Err(Error::NativeFailure) && old(rt).fail_next && final(rt).log@ == old(
                rt,
            ).log@.push(NativeCall::Memcpy) && !final(rt).fail_next
                && crate::runtime::eq_except_log_fail(*old(rt), *final(rt)),
    {
        if dst.nbytes != src.nbytes {
            return Err(Error::SizeMismatch);
        }
        if dst.nbytes == 0 {
            return Ok(());
        }
        native_call(rt, NativeCall::Memcpy)?;
        let sa = match src.alloc {
            Some(sa) => sa,
            None => {
                proof {
                    assert(false);
                }
                return Ok(());
            },
        };
        let da = match dst.alloc {
            Some(da) => da,
            None => {
                proof {
                    assert(false);
                }
                return Ok(());
            },
        };
        let tmp = read_range(rt, sa, src.offset, src.nbytes);
        write_range(rt, da, dst.offset, tmp.as_slice());
        proof {
            lemma_view_of_spliced(*old(rt), *rt, *dst, src.view_of(*old(rt)));
        }
        Ok(())
    }

    /// Synchronously copies the host bytes `src` onto `dst`'s range.  The
    /// lengths must match; a zero-length copy never touches the native
    /// layer.
    pub fn memcpy_h2d(&self, rt: &mut Runtime, dst: &DevBlob, src: &[u8]) -> (r: Result<
        (),
        Error,
    >)
        requires
            dst.wf(*old(rt)),
        ensures
            old(rt).wf() ==> final(rt).wf(),
            r is Ok <==> dst.nbytes == src@.len() && (dst.nbytes == 0 || !old(rt).fail_next),
            r is Ok ==> copy_into_post(*old(rt), *final(rt), *dst, src@)
                && dst.view_of(*final(rt)) == src@,
            r is Err ==> r == Result::<(), Error>::Err(Error::SizeMismatch)
                && dst.nbytes != src@.len() && *final(rt) == *old(rt) || r == Result::<
                (),
                Error,
            >::Err(Error::NativeFailure) && old(rt).fail_next && final(rt).log@ == old(
                rt,
            ).log@.push(NativeCall::Memcpy) && !final(rt).fail_next
                && crate::runtime::eq_except_log_fail(*old(rt), *final(rt)),
    {
        if dst.nbytes != src.len() {
            return Err(Error::SizeMismatch);
        }
        if dst.nbytes == 0 {
            return Ok(());
        }
        native_call(rt, NativeCall::Memcpy)?;
        let da = match dst.alloc {
            Some(da) => da,
            None => {
                proof {
                    assert(false);
                }
                return Ok(());
            },
        };
        write_range(rt, da, dst.offset, src);
        proof {
            lemma_view_of_spliced(*old(rt), *rt, *dst, src@);
        }
        Ok(())
    }

    /// Synchronously copies `src`'s range into the host buffer `dst`,
    /// which must have the same byte length.  A zero-length copy never
    /// touches the native layer.
    pub fn memcpy_d2h(&self, rt: &mut Runtime, dst: &mut Vec<u8>, src: &DevBlob) -> (r: Result<
        (),
        Error,
    >)
        requires
            src.wf(*old(rt)),
        ensures
            old(rt).wf() ==> final(rt).wf(),
            r is Ok <==> old(dst)@.len() == src.nbytes && (src.nbytes == 0 || !old(
                rt,
            ).fail_next),
            r is Ok ==> d2h_post(*old(rt), *final(rt), *src, final(dst)@),
            r is Err ==> *final(dst) == *old(dst) && (r == Result::<(), Error>::Err(
                Error::SizeMismatch,
            ) && old(dst)@.len() != src.nbytes && *final(rt) == *old(rt) || r == Result::<
                (),
                Error,
            >::Err(Error::NativeFailure) && old(rt).fail_next && final(rt).log@ == old(
                rt,
            ).log@.push(NativeCall::Memcpy) && !final(rt).fail_next
                && crate::runtime::eq_except_log_fail(*old(rt), *final(rt))),
    {
        if dst.len() != src.nbytes {
            return Err(Error::SizeMismatch);
        }
        if src.nbytes == 0 {
            proof {
                assert(dst@ =~= src.view_of(*old(rt)));
            }
            return Ok(());
        }
        native_call(rt, NativeCall::Memcpy)?;
        let sa = match src.alloc {
            Some(sa) => sa,
            None => {
                proof {
                    assert(false);
                }
                return Ok(());
            },
        };
        let out = read_range(rt, sa, src.offset, src.nbytes);
        *dst = out;
        Ok(())
    }
}

/// Reading a just-written range back gives the written bytes: the view of
/// `dst` after a copy of `bytes` onto its range is `bytes` itself.
proof fn lemma_view_of_spliced(pre: Runtime, post: Runtime, dst: DevBlob, bytes: Seq<u8>)
    requires
        dst.wf(pre),
        dst.nbytes == bytes.len(),
        dst.nbytes > 0,
        copy_into_post(pre, post, dst, bytes),
    ensures
        dst.view_of(post) == bytes,
{
    assert(dst.view_of(post) =~= bytes);
}

impl DevBlob {
    /// Produces a new handle over `[offset, offset + nbytes)` of the same
    /// underlying allocation, raising its share count.  No native call
    /// occurs.  The range must lie within the allocation; that is the
    /// caller's contract, as is slicing only the sentinel's empty range
    /// from a sentinel.
    pub fn slice(&self, rt: &mut Runtime, offset: usize, nbytes: usize) -> (r: DevBlob)
        requires
            self.wf(*old(rt)),
            match self.alloc {
                Option::None => offset == 0 && nbytes == 0,
                Option::Some(a) => offset + nbytes <= old(rt).allocs@[a as int].data@.len()
                    && old(rt).allocs@[a as int].refs < usize::MAX,
            },
        ensures
            old(rt).wf() ==> final(rt).wf(),
            slice_post(*old(rt), *final(rt), *self, r, offset as nat, nbytes as nat),
            r.wf(*final(rt)),
            self.wf(*final(rt)),
    {
        match self.alloc {
            None => DevBlob { alloc: None, offset: 0, nbytes: 0 },
            Some(a) => {
                let refs = rt.allocs[a].refs;
                rt.allocs[a].refs = refs + 1;
                proof {
                    if old(rt).wf() {
                        lemma_wf_frame_mem(*old(rt), *rt);
                    }
                }
                DevBlob { alloc: Some(a), offset, nbytes }
            },
        }
    }

    /// Releases this handle.
    ///
    /// The share count of the underlying allocation drops by one; exactly
    /// when it reaches zero, the native free call is issued.  The sentinel
    /// region is released without any native call.  A failing status on
    /// the free call is reported after the handle is already gone: the
    /// allocation is then leaked, never freed twice.
    pub fn release(self, rt: &mut Runtime) -> (r: Result<(), Error>)
        requires
            self.wf(*old(rt)),
        ensures
            old(rt).wf() ==> final(rt).wf(),
            r is Ok <==> match self.alloc {
                Option::None => true,
                Option::Some(a) => old(rt).allocs@[a as int].refs > 1 || !old(rt).fail_next,
            },
            r is Ok ==> release_post(*old(rt), *final(rt), self),
            r is Err ==> r == Result::<(), Error>::Err(Error::NativeFailure)
                && (self.alloc matches Some(a) && old(rt).allocs@[a as int].refs == 1
                && final(rt).allocs@.len() == old(rt).allocs@.len()
                && final(rt).allocs@[a as int].refs == 0
                && final(rt).allocs@[a as int].alive
                && final(rt).allocs@[a as int].data == old(rt).allocs@[a as int].data
                && (forall|i: int|
                    0 <= i < old(rt).allocs@.len() && i != a ==> #[trigger] final(rt).allocs@[i]
                        == old(rt).allocs@[i])
                && final(rt).log@ == old(rt).log@.push(NativeCall::Free)
                && !final(rt).fail_next
                && final(rt).host_allocs == old(rt).host_allocs
                && non_mem_eq(*old(rt), *final(rt))),
    {
        match self.alloc {
            None => Ok(()),
            Some(a) => {
                let refs = rt.allocs[a].refs;
                rt.allocs[a].refs = refs - 1;
                if refs == 1 {
                    let called = native_call(rt, NativeCall::Free);
                    proof {
                        if old(rt).wf() {
                            lemma_wf_frame_mem(*old(rt), *rt);
                        }
                    }
                    called?;
                    rt.allocs[a].alive = false;
                    proof {
                        if old(rt).wf() {
                            lemma_wf_frame_mem(*old(rt), *rt);
                        }
                    }
                    Ok(())
                } else {
                    proof {
                        if old(rt).wf() {
                            lemma_wf_frame_mem(*old(rt), *rt);
                        }
                    }
                    Ok(())
                }
            },
        }
    }
}

/// For any non-zero length, allocating a region and then releasing that
/// sole handle issues exactly one native free call, at the release and
/// not before, and the allocation is no longer alive afterwards.
pub proof fn lemma_malloc_release_single_free(
    pre: Runtime,
    mid: Runtime,
    post: Runtime,
    b: DevBlob,
    n: nat,
)
    requires
        n > 0,
        malloc_post(pre, mid, b, n),
        release_post(mid, post, b),
    ensures
        crate::runtime::spec_free_calls(mid.log@) == crate::runtime::spec_free_calls(pre.log@),
        crate::runtime::spec_free_calls(post.log@) == crate::runtime::spec_free_calls(pre.log@)
            + 1,
        !post.allocs@[b.alloc.unwrap() as int].alive,
{
    let a = b.alloc.unwrap() as int;
    assert(mid.allocs@[a] == mid.allocs@.last());
    assert(mid.allocs@[a].refs == 1);
    crate::runtime::lemma_free_calls_push(pre.log@, NativeCall::Malloc);
    crate::runtime::lemma_free_calls_push(mid.log@, NativeCall::Free);
}

/// However many handles share one allocation, the native free call is
/// issued exactly once, at the release of the last of them and never
/// before.  Here a region is allocated and sliced twice; the three
/// handles `x`, `y`, `z` over the same allocation — the region and its
/// two slices, in any order — are then released one after the other: no
/// free call is made until the last release, which makes exactly one.
pub proof fn lemma_shared_allocation_frees_once(
    s0: Runtime,
    s1: Runtime,
    s2: Runtime,
    s3: Runtime,
    s4: Runtime,
    s5: Runtime,
    s6: Runtime,
    r: DevBlob,
    r1: DevBlob,
    r2: DevBlob,
    x: DevBlob,
    y: DevBlob,
    z: DevBlob,
    n: nat,
    o1: nat,
    n1: nat,
    o2: nat,
    n2: nat,
)
    requires
        n > 0,
        malloc_post(s0, s1, r, n),
        slice_post(s1, s2, r, r1, o1, n1),
        slice_post(s2, s3, r, r2, o2, n2),
        x.alloc == r.alloc,
        y.alloc == r.alloc,
        z.alloc == r.alloc,
        release_post(s3, s4, x),
        release_post(s4, s5, y),
        release_post(s5, s6, z),
    ensures
        crate::runtime::spec_free_calls(s4.log@) == crate::runtime::spec_free_calls(s0.log@),
        crate::runtime::spec_free_calls(s5.log@) == crate::runtime::spec_free_calls(s0.log@),
        crate::runtime::spec_free_calls(s6.log@) == crate::runtime::spec_free_calls(s0.log@) + 1,
        s4.allocs@[r.alloc.unwrap() as int].alive,
        s5.allocs@[r.alloc.unwrap() as int].alive,
        !s6.allocs@[r.alloc.unwrap() as int].alive,
{
    let a = r.alloc.unwrap() as int;
    assert(s1.allocs@[a] == s1.allocs@.last());
    assert(s1.allocs@[a].refs == 1);
    assert(s2.allocs@[a].refs == 2);
    assert(s3.allocs@[a].refs == 3);
    assert(s4.allocs@[a].refs == 2);
    assert(s5.allocs@[a].refs == 1);
    assert(s6.allocs@[a].refs == 0);
    crate::runtime::lemma_free_calls_push(s0.log@, NativeCall::Malloc);
    crate::runtime::lemma_free_calls_push(s5.log@, NativeCall::Free);
}

/// Round trip: synchronously uploading host bytes to a fresh device
/// region and copying that region back down reproduces the bytes exactly.
pub proof fn lemma_host_round_trip(
    s0: Runtime,
    s1: Runtime,
    s2: Runtime,
    b: DevBlob,
    data: Seq<u8>,
    out: Seq<u8>,
)
    requires
        from_host_post(s0, s1, b, data),
        d2h_post(s1, s2, b, out),
    ensures
        out == data,
{
    if data.len() == 0 {
        assert(out =~= data);
    } else {
        assert(b.view_of(s1) =~= data);
    }
}

/// A single-owner handle over one pinned host allocation.
///
/// `host` names the underlying allocation in the runtime; `None` is the
/// sentinel of a zero-length region.  Unlike a [`DevBlob`] a host region
/// is never sliced or shared: one allocation, one owner, freed exactly
/// once on release.
#[derive(Debug)]
pub struct HostBlob {
    /// The underlying host allocation, or `None` for the sentinel.
    pub host: Option<usize>,
    /// Byte length of the allocation.
    pub nbytes: usize,
}

impl HostBlob {
    /// Whether this handle is a live reference into the runtime.
    pub open spec fn wf(self, rt: Runtime) -> bool {
        match self.host {
            Option::None => self.nbytes == 0,
            Option::Some(h) => {
                &&& h < rt.host_allocs@.len()
                &&& rt.host_allocs@[h as int].alive
                &&& rt.host_allocs@[h as int].data@.len() == self.nbytes
            },
        }
    }

    /// The bytes of the allocation, as stored in the runtime.
    pub open spec fn view_of(self, rt: Runtime) -> Seq<u8> {
        match self.host {
            Option::None => Seq::empty(),
            Option::Some(h) => rt.host_allocs@[h as int].data@,
        }
    }
}

/// The relation for a successful pinned host allocation of `n` bytes
/// returning handle `b`: zero bytes never touch the native layer;
/// otherwise one native host allocation call is logged and a fresh host
/// allocation appears.
pub open spec fn malloc_host_post(pre: Runtime, post: Runtime, b: HostBlob, n: nat) -> bool {
    if n == 0 {
        &&& post == pre
        &&& b == (HostBlob { host: None, nbytes: 0 })
    } else {
        &&& b.host matches Some(h) && h == pre.host_allocs@.len()
        &&& b.nbytes == n
        &&& post.host_allocs@.len() == pre.host_allocs@.len() + 1
        &&& forall|i: int|
            0 <= i < pre.host_allocs@.len() ==> #[trigger] post.host_allocs@[i]
                == pre.host_allocs@[i]
        &&& post.host_allocs@.last().alive
        &&& post.host_allocs@.last().data@.len() == n
        &&& post.log@ == pre.log@.push(NativeCall::MallocHost)
        &&& !post.fail_next
        &&& post.allocs == pre.allocs
        &&& non_mem_eq(pre, post)
    }
}

impl Device {
    /// Synchronously allocates `nbytes` bytes of pinned host memory.
    ///
    /// A request for zero bytes never invokes the native allocator; the
    /// sentinel region's release never invokes the native free call.
    pub fn malloc_host(&self, rt: &mut Runtime, nbytes: usize) -> (r: Result<HostBlob, Error>)
        ensures
            old(rt).wf() ==> final(rt).wf(),
            r is Ok <==> (nbytes == 0 || !old(rt).fail_next),
            r matches Ok(b) ==> malloc_host_post(*old(rt), *final(rt), b, nbytes as nat)
                && b.wf(*final(rt)),
            r is Err ==> r == Result::<HostBlob, Error>::Err(Error::NativeFailure)
                && final(rt).log@ == old(rt).log@.push(NativeCall::MallocHost)
                && !final(rt).fail_next
                && crate::runtime::eq_except_log_fail(*old(rt), *final(rt)),
    {
        if nbytes == 0 {
            return Ok(HostBlob { host: None, nbytes: 0 });
        }
        native_call(rt, NativeCall::MallocHost)?;
        let data = zeroed(nbytes);
        let h = rt.host_allocs.len();
        rt.host_allocs.push(crate::runtime::HostAlloc { data, alive: true });
        proof {
            if old(rt).wf() {
                lemma_wf_frame_mem(*old(rt), *rt);
            }
        }
        Ok(HostBlob { host: Some(h), nbytes })
    }
}

impl HostBlob {
    /// Releases this region, issuing the native host free call exactly
    /// once; the sentinel is released without any native call.  A failing
    /// status leaks the allocation, which is never freed twice.
    pub fn release(self, rt: &mut Runtime) -> (r: Result<(), Error>)
        requires
            self.wf(*old(rt)),
        ensures
            old(rt).wf() ==> final(rt).wf(),
            r is Ok <==> (self.host is None || !old(rt).fail_next),
            r is Ok ==> match self.host {
                Option::None => *final(rt) == *old(rt),
                Option::Some(h) => {
                    &&& final(rt).host_allocs@.len() == old(rt).host_allocs@.len()
                    &&& forall|i: int|
                        0 <= i < old(rt).host_allocs@.len() && i != h
                            ==> #[trigger] final(rt).host_allocs@[i] == old(rt).host_allocs@[i]
                    &&& !final(rt).host_allocs@[h as int].alive
                    &&& final(rt).host_allocs@[h as int].data == old(rt).host_allocs@[
                        h as int
                    ].data
                    &&& final(rt).log@ == old(rt).log@.push(NativeCall::FreeHost)
                    &&& !final(rt).fail_next
                    &&& final(rt).allocs == old(rt).allocs
                    &&& non_mem_eq(*old(rt), *final(rt))
                },
            },
            r is Err ==> r == Result::<(), Error>::Err(Error::NativeFailure)
                && final(rt).log@ == old(rt).log@.push(NativeCall::FreeHost)
                && !final(rt).fail_next
                && crate::runtime::eq_except_log_fail(*old(rt), *final(rt)),
    {
        match self.host {
            None => Ok(()),
            Some(h) => {
                native_call(rt, NativeCall::FreeHost)?;
                rt.host_allocs[h].alive = false;
                proof {
                    if old(rt).wf() {
                        lemma_wf_frame_mem(*old(rt), *rt);
                    }
                }
                Ok(())
            },
        }
    }

    /// Writes `data` over the whole region through the host mapping; no
    /// native call is involved.  `data` must have the region's length.
    pub fn fill(&self, rt: &mut Runtime, data: &[u8])
        requires
            self.wf(*old(rt)),
            data@.len() == self.nbytes,
        ensures
            old(rt).wf() ==> final(rt).wf(),
            self.view_of(*final(rt)) == data@,
            self.wf(*final(rt)),
            final(rt).host_allocs@.len() == old(rt).host_allocs@.len(),
            forall|i: int|
                0 <= i < old(rt).host_allocs@.len() && self.host != Some(i as usize)
                    ==> #[trigger] final(rt).host_allocs@[i] == old(rt).host_allocs@[i],
            final(rt).log == old(rt).log,
            final(rt).fail_next == old(rt).fail_next,
            final(rt).allocs == old(rt).allocs,
            non_mem_eq(*old(rt), *final(rt)),
            self.host matches Some(h) ==> final(rt).host_allocs@[h as int].alive == old(
                rt,
            ).host_allocs@[h as int].alive,
    {
        match self.host {
            None => {
                proof {
                    assert(self.view_of(*rt) =~= data@);
                }
            },
            Some(h) => {
                let len = data.len();
                let mut i: usize = 0;
                while i < len
                    invariant
                        i <= len,
                        h < rt.host_allocs@.len(),
                        len == data@.len(),
                        len == rt.host_allocs@[h as int].data@.len(),
                        rt.host_allocs@.len() == old(rt).host_allocs@.len(),
                        forall|j: int|
                            0 <= j < old(rt).host_allocs@.len() && j != h
                                ==> #[trigger] rt.host_allocs@[j] == old(rt).host_allocs@[j],
                        forall|j: int|
                            0 <= j < len ==> #[trigger] rt.host_allocs@[h as int].data@[j]
                                == if j < i {
                                    data@[j]
                                } else {
                                    old(rt).host_allocs@[h as int].data@[j]
                                },
                        rt.host_allocs@[h as int].alive == old(rt).host_allocs@[h as int].alive,
                        rt.log == old(rt).log,
                        rt.fail_next == old(rt).fail_next,
                        rt.allocs == old(rt).allocs,
                        non_mem_eq(*old(rt), *rt),
                    decreases len - i,
                {
                    rt.host_allocs[h].data[i] = data[i];
                    i = i + 1;
                }
                proof {
                    assert(self.view_of(*rt) =~= data@);
                    if old(rt).wf() {
                        lemma_wf_frame_mem(*old(rt), *rt);
                    }
                }
            },
        }
    }

    /// Reads the whole region through the host mapping into a fresh
    /// vector; no native call is involved.
    pub fn to_vec(&self, rt: &Runtime) -> (v: Vec<u8>)
        requires
            self.wf(*rt),
        ensures
            v@ == self.view_of(*rt),
    {
        match self.host {
            None => {
                let v: Vec<u8> = Vec::new();
                proof {
                    assert(v@ =~= self.view_of(*rt));
                }
                v
            },
            Some(h) => {
                let len = rt.host_allocs[h].data.len();
                let mut v: Vec<u8> = Vec::new();
                let mut i: usize = 0;
                while i < len
                    invariant
                        i <= len,
                        h < rt.host_allocs@.len(),
                        len == rt.host_allocs@[h as int].data@.len(),
                        v@ =~= rt.host_allocs@[h as int].data@.take(i as int),
                    decreases len - i,
                {
                    v.push(rt.host_allocs[h].data[i]);
                    proof {
                        assert(v@ =~= rt.host_allocs@[h as int].data@.take(i + 1));
                    }
                    i = i + 1;
                }
                proof {
                    assert(rt.host_allocs@[h as int].data@.take(len as int) =~= rt.host_allocs@[
                        h as int
                    ].data@);
                }
                v
            },
        }
    }
}

/// Reads `len` bytes at `off` from device allocation `a`.
pub(crate) fn read_range(rt: &Runtime, a: usize, off: usize, len: usize) -> (v: Vec<u8>)
    requires
        a < rt.allocs@.len(),
        off + len <= rt.allocs@[a as int].data@.len(),
    ensures
        v@ == rt.allocs@[a as int].data@.subrange(off as int, off + len),
{
    let mut v: Vec<u8> = Vec::new();
    let mut i: usize = 0;
    while i < len
        invariant
            i <= len,
            a < rt.allocs@.len(),
            off + len <= rt.allocs@[a as int].data@.len(),
            v@ =~= rt.allocs@[a as int].data@.subrange(off as int, off + i),
        decreases len - i,
    {
        let dlen = rt.allocs[a].data.len();
        assert(off + len <= dlen);
        v.push(rt.allocs[a].data[off + i]);
        proof {
            assert(v@ =~= rt.allocs@[a as int].data@.subrange(off as int, off + i + 1));
        }
        i = i + 1;
    }
    v
}

/// Writes `bytes` at `off` into device allocation `a`; nothing else in the
/// runtime changes.
pub(crate) fn write_range(rt: &mut Runtime, a: usize, off: usize, bytes: &[u8])
    requires
        a < old(rt).allocs@.len(),
        off + bytes@.len() <= old(rt).allocs@[a as int].data@.len(),
    ensures
        final(rt).allocs@.len() == old(rt).allocs@.len(),
        forall|i: int|
            0 <= i < old(rt).allocs@.len() && i != a ==> #[trigger] final(rt).allocs@[i]
                == old(rt).allocs@[i],
        final(rt).allocs@[a as int].data@ == crate::runtime::spliced(
            old(rt).allocs@[a as int].data@,
            off as int,
            bytes@,
        ),
        final(rt).allocs@[a as int].refs == old(rt).allocs@[a as int].refs,
        final(rt).allocs@[a as int].alive == old(rt).allocs@[a as int].alive,
        final(rt).log == old(rt).log,
        final(rt).fail_next == old(rt).fail_next,
        final(rt).host_allocs == old(rt).host_allocs,
        non_mem_eq(*old(rt), *final(rt)),
        old(rt).wf() ==> final(rt).wf(),
{
    let len = bytes.len();
    let mut i: usize = 0;
    while i < len
        invariant
            i <= len,
            a < rt.allocs@.len(),
            len == bytes@.len(),
            off + len <= rt.allocs@[a as int].data@.len(),
            rt.allocs@.len() == old(rt).allocs@.len(),
            forall|j: int|
                0 <= j < old(rt).allocs@.len() && j != a ==> #[trigger] rt.allocs@[j]
                    == old(rt).allocs@[j],
            rt.allocs@[a as int].data@.len() == old(rt).allocs@[a as int].data@.len(),
            forall|j: int|
                0 <= j < rt.allocs@[a as int].data@.len() ==> #[trigger] rt.allocs@[
                    a as int
                ].data@[j] == if off <= j < off + i {
                    bytes@[j - off]
                } else {
                    old(rt).allocs@[a as int].data@[j]
                },
            rt.allocs@[a as int].refs == old(rt).allocs@[a as int].refs,
            rt.allocs@[a as int].alive == old(rt).allocs@[a as int].alive,
            rt.log == old(rt).log,
            rt.fail_next == old(rt).fail_next,
            rt.host_allocs == old(rt).host_allocs,
            non_mem_eq(*old(rt), *rt),
        decreases len - i,
    {
        let dlen = rt.allocs[a].data.len();
        assert(off + len <= dlen);
        rt.allocs[a].data[off + i] = bytes[i];
        i = i + 1;
    }
    proof {
        assert(rt.allocs@[a as int].data@ =~= crate::runtime::spliced(
            old(rt).allocs@[a as int].data@,
            off as int,
            bytes@,
        ));
        if old(rt).wf() {
            lemma_wf_frame_mem(*old(rt), *rt);
        }
    }
}

/// Reads `len` bytes at `off` from host allocation `h`.
pub(crate) fn host_read_range(rt: &Runtime, h: usize, off: usize, len: usize) -> (v: Vec<u8>)
    requires
        h < rt.host_allocs@.len(),
        off + len <= rt.host_allocs@[h as int].data@.len(),
    ensures
        v@ == rt.host_allocs@[h as int].data@.subrange(off as int, off + len),
{
    let mut v: Vec<u8> = Vec::new();
    let mut i: usize = 0;
    while i < len
        invariant
            i <= len,
            h < rt.host_allocs@.len(),
            off + len <= rt.host_allocs@[h as int].data@.len(),
            v@ =~= rt.host_allocs@[h as int].data@.subrange(off as int, off + i),
        decreases len - i,
    {
        let dlen = rt.host_allocs[h].data.len();
        assert(off + len <= dlen);
        v.push(rt.host_allocs[h].data[off + i]);
        proof {
            assert(v@ =~= rt.host_allocs@[h as int].data@.subrange(off as int, off + i + 1));
        }
        i = i + 1;
    }
    v
}

/// Writes `bytes` at `off` into host allocation `h`; nothing else in the
/// runtime changes.
pub(crate) fn host_write_range(rt: &mut Runtime, h: usize, off: usize, bytes: &[u8])
    requires
        h < old(rt).host_allocs@.len(),
        off + bytes@.len() <= old(rt).host_allocs@[h as int].data@.len(),
    ensures
        final(rt).host_allocs@.len() == old(rt).host_allocs@.len(),
        forall|i: int|
            0 <= i < old(rt).host_allocs@.len() && i != h ==> #[trigger] final(rt).host_allocs@[i]
                == old(rt).host_allocs@[i],
        final(rt).host_allocs@[h as int].data@ == crate::runtime::spliced(
            old(rt).host_allocs@[h as int].data@,
            off as int,
            bytes@,
        ),
        final(rt).host_allocs@[h as int].alive == old(rt).host_allocs@[h as int].alive,
        final(rt).log == old(rt).log,
        final(rt).fail_next == old(rt).fail_next,
        final(rt).allocs == old(rt).allocs,
        non_mem_eq(*old(rt), *final(rt)),
        old(rt).wf() ==> final(rt).wf(),
{
    let len = bytes.len();
    let mut i: usize = 0;
    while i < len
        invariant
            i <= len,
            h < rt.host_allocs@.len(),
            len == bytes@.len(),
            off + len <= rt.host_allocs@[h as int].data@.len(),
            rt.host_allocs@.len() == old(rt).host_allocs@.len(),
            forall|j: int|
                0 <= j < old(rt).host_allocs@.len() && j != h ==> #[trigger] rt.host_allocs@[j]
                    == old(rt).host_allocs@[j],
            rt.host_allocs@[h as int].data@.len() == old(rt).host_allocs@[h as int].data@.len(),
            forall|j: int|
                0 <= j < rt.host_allocs@[h as int].data@.len() ==> #[trigger] rt.host_allocs@[
                    h as int
                ].data@[j] == if off <= j < off + i {
                    bytes@[j - off]
                } else {
                    old(rt).host_allocs@[h as int].data@[j]
                },
            rt.host_allocs@[h as int].alive == old(rt).host_allocs@[h as int].alive,
            rt.log == old(rt).log,
            rt.fail_next == old(rt).fail_next,
            rt.allocs == old(rt).allocs,
            non_mem_eq(*old(rt), *rt),
        decreases len - i,
    {
        let dlen = rt.host_allocs[h].data.len();
        assert(off + len <= dlen);
        rt.host_allocs[h].data[off + i] = bytes[i];
        i = i + 1;
    }
    proof {
        assert(rt.host_allocs@[h as int].data@ =~= crate::runtime::spliced(
            old(rt).host_allocs@[h as int].data@,
            off as int,
            bytes@,
        ));
        if old(rt).wf() {
            lemma_wf_frame_mem(*old(rt), *rt);
        }
    }
}

/// A vector of `n` zero bytes: the model's contents of a fresh allocation.
pub(crate) fn zeroed(n: usize) -> (v: Vec<u8>)
    ensures
        v@.len() == n,
{
    let mut v: Vec<u8> = Vec::new();
    while v.len() < n
        invariant
            v@.len() <= n,
        decreases n - v@.len(),
    {
        v.push(0);
    }
    v
}

/// A vector holding exactly the bytes of `src`.
pub(crate) fn copy_bytes(src: &[u8]) -> (v: Vec<u8>)
    ensures
        v@ == src@,
{
    let mut v: Vec<u8> = Vec::new();
    let mut i: usize = 0;
    while i < src.len()
        invariant
            i <= src@.len(),
            v@ =~= src@.take(i as int),
        decreases src@.len() - i,
    {
        v.push(src[i]);
        proof {
            assert(v@ =~= src@.take(i + 1));
        }
        i = i + 1;
    }
    proof {
        assert(src@.take(src@.len() as int) =~= src@);
    }
    v
}

} // verus!

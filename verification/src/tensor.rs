//! Tensor descriptors: element type, shape and per-dimension strides.
//!
//! A [`Tensor`] owns one native descriptor encoding an element type, a
//! shape, and per-dimension strides.  The constructor takes strides in
//! bytes and converts them to element units; supplying byte strides that
//! are exact multiples of the element size is the caller's contract, and
//! a shape/strides length mismatch fails before any native call.

use vstd::arithmetic::div_mod::lemma_fundamental_div_mod;
use vstd::prelude::*;

use crate::runtime::eq_except_log_fail;
use crate::runtime::lemma_wf_frame;
use crate::runtime::native_call;
use crate::runtime::Error;
use crate::runtime::NativeCall;
use crate::runtime::Runtime;
use crate::runtime::TensorState;

verus! {

/// The closed enumeration of element types a tensor descriptor supports.
#[derive(Clone, Copy, PartialEq, Eq, Structural, Debug)]
pub enum Dtype {
    /// Signed 8-bit integer.
    I8,
    /// Signed 16-bit integer.
    I16,
    /// Signed 32-bit integer.
    I32,
    /// Signed 64-bit integer.
    I64,
    /// Unsigned 8-bit integer.
    U8,
    /// Unsigned 16-bit integer.
    U16,
    /// Unsigned 32-bit integer.
    U32,
    /// Unsigned 64-bit integer.
    U64,
    /// 16-bit binary float.
    F16,
    /// 32-bit binary float.
    F32,
    /// 64-bit binary float.
    F64,
    /// 16-bit brain float.
    BF16,
}

impl Dtype {
    /// The size of one element of this type, in bytes.
    pub open spec fn nbytes_spec(self) -> int {
        match self {
            Dtype::I8 => 1,
            Dtype::I16 => 2,
            Dtype::I32 => 4,
            Dtype::I64 => 8,
            Dtype::U8 => 1,
            Dtype::U16 => 2,
            Dtype::U32 => 4,
            Dtype::U64 => 8,
            Dtype::F16 => 2,
            Dtype::F32 => 4,
            Dtype::F64 => 8,
            Dtype::BF16 => 2,
        }
    }

    /// The size of one element of this type, in bytes.
    pub fn nbytes(&self) -> (n: usize)
        ensures
            n == self.nbytes_spec(),
    {
        match self {
            Dtype::I8 => 1,
            Dtype::I16 => 2,
            Dtype::I32 => 4,
            Dtype::I64 => 8,
            Dtype::U8 => 1,
            Dtype::U16 => 2,
            Dtype::U32 => 4,
            Dtype::U64 => 8,
            Dtype::F16 => 2,
            Dtype::F32 => 4,
            Dtype::F64 => 8,
            Dtype::BF16 => 2,
        }
    }
}

/// An owned, immutable native tensor descriptor.
#[derive(Debug)]
pub struct Tensor {
    /// The descriptor's index in the runtime.
    pub id: usize,
}

impl Tensor {
    /// Whether this handle refers to a live descriptor of the runtime.
    pub open spec fn wf(self, rt: Runtime) -> bool {
        &&& self.id < rt.tensors@.len()
        &&& rt.tensors@[self.id as int].alive
    }
}

/// The relation for successfully constructing descriptor `t` from
/// element type `dt`, dimension sizes `shape` and byte strides
/// `strides`: a fresh descriptor appears whose strides are the byte
/// strides divided by the element size, and one native call is logged.
pub open spec fn tensor_create_post(
    pre: Runtime,
    post: Runtime,
    t: Tensor,
    dt: Dtype,
    shape: Seq<usize>,
    strides: Seq<isize>,
) -> bool {
    &&& t.id == pre.tensors@.len()
    &&& post.tensors@.len() == pre.tensors@.len() + 1
    &&& forall|i: int| 0 <= i < pre.tensors@.len() ==> #[trigger] post.tensors@[i] == pre.tensors@[i]
    &&& post.tensors@.last().alive
    &&& post.tensors@.last().dtype == dt
    &&& post.tensors@.last().shape@ == shape
    &&& post.tensors@.last().strides@.len() == strides.len()
    &&& forall|i: int|
        0 <= i < strides.len() ==> (#[trigger] post.tensors@.last().strides@[i])
            * dt.nbytes_spec() == strides[i]
    &&& post.log@ == pre.log@.push(NativeCall::TensorCreate)
    &&& !post.fail_next
    &&& post.allocs == pre.allocs
    &&& post.host_allocs == pre.host_allocs
    &&& post.streams == pre.streams
    &&& post.events == pre.events
    &&& post.initialized == pre.initialized
    &&& post.active == pre.active
    &&& post.handles == pre.handles
    &&& post.descriptors == pre.descriptors
}

impl Tensor {
    /// Constructs a descriptor for element type `dt`, dimension sizes
    /// `shape` and per-dimension strides in bytes.
    ///
    /// The byte strides must be exact multiples of the element size;
    /// that is the caller's contract.  A mismatch between the number of
    /// dimensions of `shape` and of `strides` fails before any native
    /// call is made.
    pub fn new(rt: &mut Runtime, dt: Dtype, shape: Vec<usize>, strides: Vec<isize>) -> (r: Result<
        Tensor,
        Error,
    >)
        requires
            forall|i: int|
                0 <= i < strides@.len() ==> (#[trigger] strides@[i]) % (
                dt.nbytes_spec() as isize) == 0 && strides@[i] > isize::MIN,
        ensures
            old(rt).wf() ==> final(rt).wf(),
            shape@.len() != strides@.len() ==> r == Result::<Tensor, Error>::Err(
                Error::DimensionMismatch,
            ) && *final(rt) == *old(rt),
            r is Ok <==> shape@.len() == strides@.len() && !old(rt).fail_next,
            r matches Ok(t) ==> tensor_create_post(*old(rt), *final(rt), t, dt, shape@, strides@)
                && t.wf(*final(rt)),
            r == Result::<Tensor, Error>::Err(Error::NativeFailure) ==> old(rt).fail_next
                && shape@.len() == strides@.len() && final(rt).log@ == old(rt).log@.push(
                NativeCall::TensorCreate,
            ) && !final(rt).fail_next && eq_except_log_fail(*old(rt), *final(rt)),
            r is Err ==> r == Result::<Tensor, Error>::Err(Error::DimensionMismatch) || r
                == Result::<Tensor, Error>::Err(Error::NativeFailure),
    {
        if shape.len() != strides.len() {
            return Err(Error::DimensionMismatch);
        }
        native_call(rt, NativeCall::TensorCreate)?;
        let ele = dt.nbytes();
        let ndim = strides.len();
        let mut el_strides: Vec<isize> = Vec::new();
        let mut i: usize = 0;
        while i < ndim
            invariant
                i <= ndim,
                ndim == strides@.len(),
                ele == dt.nbytes_spec(),
                1 <= ele <= 8,
                el_strides@.len() == i,
                forall|j: int|
                    0 <= j < strides@.len() ==> (#[trigger] strides@[j]) % (ele as isize) == 0
                        && strides@[j] > isize::MIN,
                forall|j: int|
                    0 <= j < i ==> (#[trigger] el_strides@[j]) * (ele as int) == strides@[j],
            decreases ndim - i,
        {
            let s = strides[i];
            let q: isize = if s >= 0 {
                ((s as usize) / ele) as isize
            } else {
                let m = (-s) as usize;
                proof {
                    vstd::arithmetic::div_mod::lemma_div_nonincreasing(m as int, ele as int);
                }
                -((m / ele) as isize)
            };
            proof {
                let se = ele as int;
                let si = s as int;
                lemma_fundamental_div_mod(si, se);
                let k = si / se;
                assert(si == se * k);
                if s >= 0 {
                    assert(q == k);
                    assert(q * se == si) by (nonlinear_arith)
                        requires
                            q == k,
                            si == se * k,
                    ;
                } else {
                    let mi = -si;
                    assert(mi == se * (-k)) by (nonlinear_arith)
                        requires
                            si == se * k,
                            mi == -si,
                    ;
                    vstd::arithmetic::div_mod::lemma_div_multiples_vanish(-k, se);
                    assert(mi / se == -k);
                    assert(q == k);
                    assert(q * se == si) by (nonlinear_arith)
                        requires
                            q == k,
                            si == se * k,
                    ;
                }
            }
            el_strides.push(q);
            i = i + 1;
        }
        let id = rt.tensors.len();
        rt.tensors.push(TensorState { alive: true, dtype: dt, shape, strides: el_strides });
        proof {
            if old(rt).wf() {
                lemma_wf_frame(*old(rt), *rt);
            }
        }
        Ok(Tensor { id })
    }

    /// Destroys this descriptor, exactly once.  A failing native status
    /// is unrecoverable for the program and is reported for the
    /// embedding to abort on.
    pub fn destroy(self, rt: &mut Runtime) -> (r: Result<(), Error>)
        requires
            self.wf(*old(rt)),
        ensures
            old(rt).wf() ==> final(rt).wf(),
            final(rt).log@ == old(rt).log@.push(NativeCall::TensorDestroy),
            !final(rt).fail_next,
            r is Ok <==> !old(rt).fail_next,
            r is Ok ==> !final(rt).tensors@[self.id as int].alive
                && final(rt).tensors@.len() == old(rt).tensors@.len()
                && (forall|i: int|
                    0 <= i < old(rt).tensors@.len() && i != self.id
                        ==> #[trigger] final(rt).tensors@[i] == old(rt).tensors@[i])
                && final(rt).allocs == old(rt).allocs
                && final(rt).host_allocs == old(rt).host_allocs
                && final(rt).streams == old(rt).streams
                && final(rt).events == old(rt).events
                && final(rt).initialized == old(rt).initialized
                && final(rt).active == old(rt).active
                && final(rt).handles == old(rt).handles
                && final(rt).descriptors == old(rt).descriptors,
            r is Err ==> r == Result::<(), Error>::Err(Error::NativeFailure)
                && eq_except_log_fail(*old(rt), *final(rt)),
    {
        native_call(rt, NativeCall::TensorDestroy)?;
        rt.tensors[self.id].alive = false;
        proof {
            if old(rt).wf() {
                lemma_wf_frame(*old(rt), *rt);
            }
        }
        Ok(())
    }
}

} // verus!

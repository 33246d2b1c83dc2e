//! Operation handles: opaque capability objects for the compute API.

use vstd::prelude::*;

use crate::runtime::eq_except_log_fail;
use crate::runtime::lemma_wf_frame;
use crate::runtime::native_call;
use crate::runtime::Error;
use crate::runtime::NativeCall;
use crate::runtime::Runtime;

verus! {

/// An owned opaque native handle, created with no arguments and required
/// as an ambient capability by compute-dispatch calls outside this
/// layer's scope.
#[derive(Debug)]
pub struct Handle {
    /// The handle's index in the runtime.
    pub id: usize,
}

impl Handle {
    /// Whether this value refers to a live handle of the runtime.
    pub open spec fn wf(self, rt: Runtime) -> bool {
        &&& self.id < rt.handles@.len()
        &&& rt.handles@[self.id as int]
    }

    /// Creates a new operation handle.
    pub fn new(rt: &mut Runtime) -> (r: Result<Handle, Error>)
        ensures
            old(rt).wf() ==> final(rt).wf(),
            final(rt).log@ == old(rt).log@.push(NativeCall::HandleCreate),
            !final(rt).fail_next,
            r is Ok <==> !old(rt).fail_next,
            r matches Ok(h) ==> h.id == old(rt).handles@.len() && final(rt).handles@ == old(
                rt,
            ).handles@.push(true) && h.wf(*final(rt)) && final(rt).allocs == old(rt).allocs
                && final(rt).host_allocs == old(rt).host_allocs && final(rt).streams == old(
                rt,
            ).streams && final(rt).events == old(rt).events && final(rt).tensors == old(
                rt,
            ).tensors && final(rt).descriptors == old(rt).descriptors && final(rt).initialized
                == old(rt).initialized && final(rt).active == old(rt).active,
            r is Err ==> r == Result::<Handle, Error>::Err(Error::NativeFailure)
                && eq_except_log_fail(*old(rt), *final(rt)),
    {
        native_call(rt, NativeCall::HandleCreate)?;
        let id = rt.handles.len();
        rt.handles.push(true);
        proof {
            if old(rt).wf() {
                lemma_wf_frame(*old(rt), *rt);
            }
        }
        Ok(Handle { id })
    }

    /// Destroys this handle, exactly once.  A failing native status is
    /// unrecoverable for the program and is reported for the embedding
    /// to abort on.
    pub fn destroy(self, rt: &mut Runtime) -> (r: Result<(), Error>)
        requires
            self.wf(*old(rt)),
        ensures
            old(rt).wf() ==> final(rt).wf(),
            final(rt).log@ == old(rt).log@.push(NativeCall::HandleDestroy),
            !final(rt).fail_next,
            r is Ok <==> !old(rt).fail_next,
            r is Ok ==> final(rt).handles@ == old(rt).handles@.update(self.id as int, false)
                && final(rt).allocs == old(rt).allocs && final(rt).host_allocs == old(
                rt,
            ).host_allocs && final(rt).streams == old(rt).streams && final(rt).events == old(
                rt,
            ).events && final(rt).tensors == old(rt).tensors && final(rt).descriptors == old(
                rt,
            ).descriptors && final(rt).initialized == old(rt).initialized && final(rt).active
                == old(rt).active,
            r is Err ==> r == Result::<(), Error>::Err(Error::NativeFailure)
                && eq_except_log_fail(*old(rt), *final(rt)),
    {
        native_call(rt, NativeCall::HandleDestroy)?;
        rt.handles[self.id] = false;
        proof {
            if old(rt).wf() {
                lemma_wf_frame(*old(rt), *rt);
            }
        }
        Ok(())
    }
}

} // verus!

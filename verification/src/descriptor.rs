//! Generic operation descriptors: single-shot owned native resources.

use vstd::prelude::*;

use crate::runtime::eq_except_log_fail;
use crate::runtime::lemma_wf_frame;
use crate::runtime::native_call;
use crate::runtime::Error;
use crate::runtime::NativeCall;
use crate::runtime::Runtime;

verus! {

/// An owned wrapper over one native descriptor object created by the
/// operation API: created once, destroyed exactly once.
#[derive(Debug)]
pub struct Descriptor {
    /// The descriptor's index in the runtime.
    pub id: usize,
}

impl Descriptor {
    /// Whether this value refers to a live descriptor of the runtime.
    pub open spec fn wf(self, rt: Runtime) -> bool {
        &&& self.id < rt.descriptors@.len()
        &&& rt.descriptors@[self.id as int]
    }

    /// Creates a new descriptor through the native operation API.
    pub fn new(rt: &mut Runtime) -> (r: Result<Descriptor, Error>)
        ensures
            old(rt).wf() ==> final(rt).wf(),
            final(rt).log@ == old(rt).log@.push(NativeCall::DescriptorCreate),
            !final(rt).fail_next,
            r is Ok <==> !old(rt).fail_next,
            r matches Ok(d) ==> d.id == old(rt).descriptors@.len() && final(rt).descriptors@
                == old(rt).descriptors@.push(true) && d.wf(*final(rt)) && final(rt).allocs == old(
                rt,
            ).allocs && final(rt).host_allocs == old(rt).host_allocs && final(rt).streams == old(
                rt,
            ).streams && final(rt).events == old(rt).events && final(rt).tensors == old(
                rt,
            ).tensors && final(rt).handles == old(rt).handles && final(rt).initialized == old(
                rt,
            ).initialized && final(rt).active == old(rt).active,
            r is Err ==> r == Result::<Descriptor, Error>::Err(Error::NativeFailure)
                && eq_except_log_fail(*old(rt), *final(rt)),
    {
        native_call(rt, NativeCall::DescriptorCreate)?;
        let id = rt.descriptors.len();
        rt.descriptors.push(true);
        proof {
            if old(rt).wf() {
                lemma_wf_frame(*old(rt), *rt);
            }
        }
        Ok(Descriptor { id })
    }

    /// Destroys this descriptor, exactly once.  A failing native status
    /// is unrecoverable for the program and is reported for the
    /// embedding to abort on.
    pub fn destroy(self, rt: &mut Runtime) -> (r: Result<(), Error>)
        requires
            self.wf(*old(rt)),
        ensures
            old(rt).wf() ==> final(rt).wf(),
            final(rt).log@ == old(rt).log@.push(NativeCall::DescriptorDestroy),
            !final(rt).fail_next,
            r is Ok <==> !old(rt).fail_next,
            r is Ok ==> final(rt).descriptors@ == old(rt).descriptors@.update(
                self.id as int,
                false,
            ) && final(rt).allocs == old(rt).allocs && final(rt).host_allocs == old(
                rt,
            ).host_allocs && final(rt).streams == old(rt).streams && final(rt).events == old(
                rt,
            ).events && final(rt).tensors == old(rt).tensors && final(rt).handles == old(
                rt,
            ).handles && final(rt).initialized == old(rt).initialized && final(rt).active == old(
                rt,
            ).active,
            r is Err ==> r == Result::<(), Error>::Err(Error::NativeFailure)
                && eq_except_log_fail(*old(rt), *final(rt)),
    {
        native_call(rt, NativeCall::DescriptorDestroy)?;
        rt.descriptors[self.id] = false;
        proof {
            if old(rt).wf() {
                lemma_wf_frame(*old(rt), *rt);
            }
        }
        Ok(())
    }
}

} // verus!

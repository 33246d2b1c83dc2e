//! Device identity and device-wide operations.

use vstd::prelude::*;

use crate::runtime::eq_except_log_fail;
use crate::runtime::native_call;
use crate::runtime::Error;
use crate::runtime::NativeCall;
use crate::runtime::Runtime;

verus! {

/// The kind of a compute device.
#[derive(Clone, Copy, PartialEq, Eq, Structural, Debug)]
pub enum DeviceType {
    /// The host processor.
    CPU,
    /// An accelerator device.
    CUDA,
}

/// A compute device: an immutable value naming a device by kind and
/// ordinal.  Operations invoked on a device implicitly address the ambient
/// active device of the runtime; [`Device::set_device`] selects it.
#[derive(Clone, Copy, PartialEq, Eq, Structural, Debug)]
pub struct Device {
    /// The device kind.
    pub ty: DeviceType,
    /// The device ordinal.
    pub id: i32,
}

impl Device {
    /// Names the device of the given kind and ordinal.
    pub fn new(ty: DeviceType, id: i32) -> (d: Device)
        ensures
            d.ty == ty,
            d.id == id,
    {
        Device { ty, id }
    }

    /// The default device: the host processor, ordinal zero.
    pub fn default() -> (d: Device)
        ensures
            d.ty == DeviceType::CPU,
            d.id == 0,
    {
        Device { ty: DeviceType::CPU, id: 0 }
    }

    /// Renames this value to the given kind and ordinal.
    pub fn set(&mut self, ty: DeviceType, id: i32)
        ensures
            final(self).ty == ty,
            final(self).id == id,
    {
        self.ty = ty;
        self.id = id;
    }

    /// The kind of this device.
    pub fn get(&self) -> (ty: DeviceType)
        ensures
            ty == self.ty,
    {
        self.ty
    }

    /// Blocks the host until all device work, on every stream, has
    /// completed: a device-wide barrier.  In the model the scheduler
    /// runs until nothing can make progress; if any queue is then still
    /// not drained, the wait could never finish, which is reported as a
    /// deadlock.
    pub fn synchronize(&self, rt: &mut Runtime) -> (r: Result<(), Error>)
        requires
            old(rt).wf(),
        ensures
            final(rt).wf(),
            final(rt).log@ == old(rt).log@.push(NativeCall::DeviceSynchronize),
            !final(rt).fail_next,
            old(rt).fail_next ==> r == Result::<(), Error>::Err(Error::NativeFailure)
                && eq_except_log_fail(*old(rt), *final(rt)),
            !old(rt).fail_next ==> crate::runtime::sync_post(
                *old(rt),
                *final(rt),
                NativeCall::DeviceSynchronize,
            ) && (r is Ok <==> (forall|i: int|
                0 <= i < final(rt).streams@.len() ==> (#[trigger] final(rt).streams@[i]).completed
                    == final(rt).streams@[i].ops@.len())) && (r is Err ==> r == Result::<
                (),
                Error,
            >::Err(Error::Deadlock)),
    {
        let ghost pre = *old(rt);
        native_call(rt, NativeCall::DeviceSynchronize)?;
        let ghost mid = *rt;
        rt.run_all();
        proof {
            crate::runtime::lemma_sched_core_refl(pre, mid);
            crate::runtime::lemma_sched_core_trans(pre, mid, *rt);
        }
        let n = rt.streams.len();
        let mut i: usize = 0;
        let mut drained = true;
        while i < n
            invariant
                i <= n,
                n == rt.streams@.len(),
                drained ==> forall|j: int|
                    0 <= j < i ==> (#[trigger] rt.streams@[j]).completed == rt.streams@[
                        j
                    ].ops@.len(),
                !drained ==> exists|j: int|
                    0 <= j < i && (#[trigger] rt.streams@[j]).completed != rt.streams@[
                        j
                    ].ops@.len(),
            decreases n - i,
        {
            if rt.streams[i].completed != rt.streams[i].ops.len() {
                drained = false;
            }
            i = i + 1;
        }
        if drained {
            Ok(())
        } else {
            Err(Error::Deadlock)
        }
    }

    /// Makes this device the ambient active device of the runtime.
    pub fn set_device(&self, rt: &mut Runtime) -> (r: Result<(), Error>)
        ensures
            final(rt).log@ == old(rt).log@.push(NativeCall::SetDevice),
            !final(rt).fail_next,
            r is Ok <==> !old(rt).fail_next,
            r is Ok ==> final(rt).active == *self
                && eq_except_active(*old(rt), *final(rt)),
            r is Err ==> r == Result::<(), Error>::Err(Error::NativeFailure)
                && eq_except_log_fail(*old(rt), *final(rt)),
            old(rt).wf() ==> final(rt).wf(),
    {
        native_call(rt, NativeCall::SetDevice)?;
        rt.active = *self;
        proof {
            if old(rt).wf() {
                crate::runtime::lemma_wf_frame(*old(rt), *rt);
            }
        }
        Ok(())
    }
}

/// Whether `b` agrees with `a` on everything but the call log, the
/// failure-injection switch and the ambient active device.
pub open spec fn eq_except_active(a: Runtime, b: Runtime) -> bool {
    &&& b.initialized == a.initialized
    &&& b.allocs == a.allocs
    &&& b.host_allocs == a.host_allocs
    &&& b.streams == a.streams
    &&& b.events == a.events
    &&& b.handles == a.handles
    &&& b.tensors == a.tensors
    &&& b.descriptors == a.descriptors
}

} // verus!

//! Resource-lifetime and synchronization layer for a heterogeneous
//! (host + accelerator) computing runtime.
//!
//! The native runtime is represented by an explicit [`Runtime`] value: an
//! in-memory model of the native layer that records every native call it
//! receives, executes enqueued stream work in order, and can be told to
//! report a failing status.  Every operation of the library is verified
//! against this model; a host program owns one `Runtime` and passes it to
//! each call.

use vstd::prelude::*;

mod descriptor;
mod device;
mod event;
mod handle;
mod memory;
mod runtime;
mod stream;
mod tensor;

pub use descriptor::Descriptor;
pub use device::Device;
pub use device::DeviceType;
pub use event::Event;
pub use handle::Handle;
pub use memory::DevBlob;
pub use memory::DevByte;
pub use memory::HostBlob;
pub use runtime::Error;
pub use runtime::NativeCall;
pub use runtime::Runtime;
pub use stream::Stream;
pub use tensor::Dtype;
pub use tensor::Tensor;

verus! {

/// Initializes the runtime environment.
///
/// Issues the native initialization call; on success the runtime is marked
/// initialized.  A failing native status is returned as an error and leaves
/// everything but the call log unchanged.
pub fn init(rt: &mut Runtime) -> (r: Result<(), Error>)
    ensures
        final(rt).log@ == old(rt).log@.push(NativeCall::Init),
        !final(rt).fail_next,
        r is Ok <==> !old(rt).fail_next,
        r is Ok ==> final(rt).initialized
            && runtime::eq_except_log_fail_init(*old(rt), *final(rt)),
        r is Err ==> r == Result::<(), Error>::Err(Error::NativeFailure)
            && runtime::eq_except_log_fail(*old(rt), *final(rt)),
{
    runtime::native_call(rt, NativeCall::Init)?;
    rt.initialized = true;
    Ok(())
}

/// Access to the raw native identifier behind an owning wrapper.
///
/// In the model a raw handle is the index of the underlying native record.
/// The returned value must not be used to outlive the owning wrapper.
pub trait AsRaw {
    /// The raw native identifier of this resource.
    fn as_raw(&self) -> usize;
}

impl AsRaw for Stream {
    fn as_raw(&self) -> usize {
        self.id
    }
}

impl AsRaw for Event {
    fn as_raw(&self) -> usize {
        self.id
    }
}

impl AsRaw for DevBlob {
    fn as_raw(&self) -> usize {
        match self.alloc {
            Some(a) => a,
            None => usize::MAX,
        }
    }
}

impl AsRaw for HostBlob {
    fn as_raw(&self) -> usize {
        match self.host {
            Some(h) => h,
            None => usize::MAX,
        }
    }
}

impl AsRaw for Tensor {
    fn as_raw(&self) -> usize {
        self.id
    }
}

impl AsRaw for Handle {
    fn as_raw(&self) -> usize {
        self.id
    }
}

impl AsRaw for Descriptor {
    fn as_raw(&self) -> usize {
        self.id
    }
}

} // verus!

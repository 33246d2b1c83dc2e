//! Failure injection, tensor descriptors, handles and device identity.

use digit_layout::types;
use infinicore::AsRaw;
use infinicore::Descriptor;
use infinicore::Device;
use infinicore::DeviceType;
use infinicore::Dtype;
use infinicore::Error;
use infinicore::Handle;
use infinicore::NativeCall;
use infinicore::Runtime;
use infinicore::Tensor;

#[test]
fn init_is_logged_and_marks_the_runtime() {
    let mut rt = Runtime::new();
    assert!(!rt.initialized);
    infinicore::init(&mut rt).unwrap();
    assert!(rt.initialized);
    assert_eq!(rt.log, vec![NativeCall::Init]);
}

#[test]
fn injected_failure_surfaces_on_every_wrapped_call() {
    let dev = Device::default();

    let mut rt = Runtime::new();
    rt.inject_failure();
    assert_eq!(infinicore::init(&mut rt), Err(Error::NativeFailure));

    let mut rt = Runtime::new();
    rt.inject_failure();
    assert_eq!(dev.malloc(&mut rt, 8).unwrap_err(), Error::NativeFailure);
    // Nothing was allocated: no partial value escapes.
    assert!(rt.allocs.is_empty());

    let mut rt = Runtime::new();
    rt.inject_failure();
    assert_eq!(dev.malloc_host(&mut rt, 8).unwrap_err(), Error::NativeFailure);
    assert!(rt.host_allocs.is_empty());

    let mut rt = Runtime::new();
    rt.inject_failure();
    assert_eq!(dev.from_host(&mut rt, &[1]).unwrap_err(), Error::NativeFailure);
    assert!(rt.allocs.is_empty());

    let mut rt = Runtime::new();
    rt.inject_failure();
    assert_eq!(dev.stream(&mut rt).unwrap_err(), Error::NativeFailure);
    assert!(rt.streams.is_empty());

    let mut rt = Runtime::new();
    rt.inject_failure();
    assert_eq!(dev.event(&mut rt).unwrap_err(), Error::NativeFailure);
    assert!(rt.events.is_empty());

    let mut rt = Runtime::new();
    rt.inject_failure();
    assert_eq!(dev.set_device(&mut rt), Err(Error::NativeFailure));

    let mut rt = Runtime::new();
    rt.inject_failure();
    assert_eq!(dev.synchronize(&mut rt), Err(Error::NativeFailure));

    let mut rt = Runtime::new();
    rt.inject_failure();
    assert_eq!(Handle::new(&mut rt).unwrap_err(), Error::NativeFailure);

    let mut rt = Runtime::new();
    rt.inject_failure();
    assert_eq!(Descriptor::new(&mut rt).unwrap_err(), Error::NativeFailure);
}

#[test]
fn injected_failure_on_copy_leaves_data_untouched() {
    let mut rt = Runtime::new();
    let dev = Device::default();
    let blob = dev.from_host(&mut rt, &[1, 2, 3]).unwrap();
    rt.inject_failure();
    assert_eq!(
        dev.memcpy_h2d(&mut rt, &blob, &[9, 9, 9]),
        Err(Error::NativeFailure)
    );
    let mut out: Vec<u8> = vec![0; 3];
    dev.memcpy_d2h(&mut rt, &mut out, &blob).unwrap();
    assert_eq!(out, vec![1, 2, 3]);
    blob.release(&mut rt).unwrap();
}

#[test]
fn injected_failure_hits_stream_calls() {
    let mut rt = Runtime::new();
    let dev = Device::default();
    let stream = dev.stream(&mut rt).unwrap();
    let blob = stream.malloc(&mut rt, 4).unwrap();

    rt.inject_failure();
    assert_eq!(stream.malloc(&mut rt, 4).unwrap_err(), Error::NativeFailure);

    rt.inject_failure();
    assert_eq!(stream.synchronize(&mut rt), Err(Error::NativeFailure));

    rt.inject_failure();
    let src = dev.malloc(&mut rt, 4).unwrap_err();
    assert_eq!(src, Error::NativeFailure);

    stream.free(&mut rt, blob).unwrap();
    stream.synchronize(&mut rt).unwrap();
}

#[test]
fn tensor_dimension_mismatch_fails_before_any_native_call() {
    let mut rt = Runtime::new();
    let r = Tensor::new(&mut rt, Dtype::F32, vec![2, 3], vec![12]);
    assert_eq!(r.unwrap_err(), Error::DimensionMismatch);
    assert_eq!(rt.call_count(), 0);
}

#[test]
fn tensor_converts_byte_strides_to_element_strides() {
    let mut rt = Runtime::new();
    let t = Tensor::new(&mut rt, Dtype::F32, vec![2, 3], vec![12, 4]).unwrap();
    assert_eq!(rt.tensors[t.id].shape, vec![2, 3]);
    assert_eq!(rt.tensors[t.id].strides, vec![3, 1]);
    assert_eq!(rt.log, vec![NativeCall::TensorCreate]);
    t.destroy(&mut rt).unwrap();
    assert_eq!(rt.log, vec![NativeCall::TensorCreate, NativeCall::TensorDestroy]);
}

#[test]
fn tensor_accepts_negative_strides() {
    let mut rt = Runtime::new();
    let t = Tensor::new(&mut rt, Dtype::I16, vec![4], vec![-8]).unwrap();
    assert_eq!(rt.tensors[t.id].strides, vec![-4]);
    t.destroy(&mut rt).unwrap();
}

#[test]
fn tensor_creation_failure_is_fatal_not_partial() {
    let mut rt = Runtime::new();
    rt.inject_failure();
    let r = Tensor::new(&mut rt, Dtype::U8, vec![1], vec![1]);
    assert_eq!(r.unwrap_err(), Error::NativeFailure);
    assert!(rt.tensors.is_empty());
}

#[test]
fn dtype_sizes_match_digit_layout() {
    assert_eq!(Dtype::I8.nbytes(), types::I8.nbytes());
    assert_eq!(Dtype::I16.nbytes(), types::I16.nbytes());
    assert_eq!(Dtype::I32.nbytes(), types::I32.nbytes());
    assert_eq!(Dtype::I64.nbytes(), types::I64.nbytes());
    assert_eq!(Dtype::U8.nbytes(), types::U8.nbytes());
    assert_eq!(Dtype::U16.nbytes(), types::U16.nbytes());
    assert_eq!(Dtype::U32.nbytes(), types::U32.nbytes());
    assert_eq!(Dtype::U64.nbytes(), types::U64.nbytes());
    assert_eq!(Dtype::F16.nbytes(), types::F16.nbytes());
    assert_eq!(Dtype::F32.nbytes(), types::F32.nbytes());
    assert_eq!(Dtype::F64.nbytes(), types::F64.nbytes());
    assert_eq!(Dtype::BF16.nbytes(), types::BF16.nbytes());
}

#[test]
fn device_identity_is_a_plain_value() {
    let mut d = Device::new(DeviceType::CUDA, 2);
    assert_eq!(d.get(), DeviceType::CUDA);
    assert_eq!(d.id, 2);
    d.set(DeviceType::CPU, 0);
    assert_eq!(d.get(), DeviceType::CPU);
    assert_eq!(d, Device::default());
}

#[test]
fn set_device_changes_the_ambient_device() {
    let mut rt = Runtime::new();
    let gpu = Device::new(DeviceType::CUDA, 1);
    gpu.set_device(&mut rt).unwrap();
    assert_eq!(rt.active, gpu);
    assert_eq!(rt.log, vec![NativeCall::SetDevice]);
}

#[test]
fn handle_and_descriptor_lifecycles_are_single_shot() {
    let mut rt = Runtime::new();
    let h = Handle::new(&mut rt).unwrap();
    let d = Descriptor::new(&mut rt).unwrap();
    assert!(rt.handles[h.id]);
    assert!(rt.descriptors[d.id]);
    h.destroy(&mut rt).unwrap();
    d.destroy(&mut rt).unwrap();
    assert_eq!(
        rt.log,
        vec![
            NativeCall::HandleCreate,
            NativeCall::DescriptorCreate,
            NativeCall::HandleDestroy,
            NativeCall::DescriptorDestroy,
        ]
    );
}

#[test]
fn raw_identifiers_name_the_underlying_records() {
    let mut rt = Runtime::new();
    let dev = Device::default();
    let stream = dev.stream(&mut rt).unwrap();
    let event = dev.event(&mut rt).unwrap();
    let blob = dev.malloc(&mut rt, 4).unwrap();
    assert_eq!(stream.as_raw(), stream.id);
    assert_eq!(event.as_raw(), event.id);
    assert_eq!(blob.as_raw(), blob.alloc.unwrap());
    let sentinel = dev.malloc(&mut rt, 0).unwrap();
    assert_eq!(sentinel.as_raw(), usize::MAX);
    blob.release(&mut rt).unwrap();
}

//! Allocation, slicing and release discipline of device and host regions,
//! observed through the runtime's native-call log.

use infinicore::Device;
use infinicore::NativeCall;
use infinicore::Runtime;

#[test]
fn zero_length_malloc_makes_no_native_call() {
    let mut rt = Runtime::new();
    let dev = Device::default();
    let blob = dev.malloc(&mut rt, 0).unwrap();
    assert_eq!(rt.call_count(), 0);
    assert_eq!(blob.nbytes, 0);
    assert!(blob.alloc.is_none());
    blob.release(&mut rt).unwrap();
    assert_eq!(rt.call_count(), 0);
    assert_eq!(rt.free_call_count(), 0);
}

#[test]
fn zero_length_malloc_host_makes_no_native_call() {
    let mut rt = Runtime::new();
    let dev = Device::default();
    let blob = dev.malloc_host(&mut rt, 0).unwrap();
    assert_eq!(rt.call_count(), 0);
    assert_eq!(blob.nbytes, 0);
    assert_eq!(blob.to_vec(&rt), Vec::<u8>::new());
    blob.release(&mut rt).unwrap();
    assert_eq!(rt.call_count(), 0);
}

#[test]
fn zero_length_region_is_empty_view() {
    let mut rt = Runtime::new();
    let dev = Device::default();
    let blob = dev.from_host(&mut rt, &[]).unwrap();
    let mut out: Vec<u8> = Vec::new();
    dev.memcpy_d2h(&mut rt, &mut out, &blob).unwrap();
    assert_eq!(out, Vec::<u8>::new());
    assert_eq!(rt.call_count(), 0);
}

#[test]
fn malloc_then_release_frees_exactly_once() {
    let mut rt = Runtime::new();
    let dev = Device::default();
    let blob = dev.malloc(&mut rt, 64).unwrap();
    assert_eq!(rt.alloc_call_count(), 1);
    assert_eq!(rt.free_call_count(), 0);
    blob.release(&mut rt).unwrap();
    assert_eq!(rt.free_call_count(), 1);
    assert_eq!(rt.log, vec![NativeCall::Malloc, NativeCall::Free]);
}

#[test]
fn slices_share_one_free_in_either_order() {
    for first_low in [true, false] {
        let mut rt = Runtime::new();
        let dev = Device::default();
        let r = dev.malloc(&mut rt, 1024).unwrap();
        let r1 = r.slice(&mut rt, 0, 512);
        let r2 = r.slice(&mut rt, 512, 512);
        r.release(&mut rt).unwrap();
        assert_eq!(rt.free_call_count(), 0);
        let (a, b) = if first_low { (r1, r2) } else { (r2, r1) };
        a.release(&mut rt).unwrap();
        assert_eq!(rt.free_call_count(), 0);
        b.release(&mut rt).unwrap();
        assert_eq!(rt.free_call_count(), 1);
        assert_eq!(rt.alloc_call_count(), 1);
    }
}

#[test]
fn slicing_makes_no_native_call() {
    let mut rt = Runtime::new();
    let dev = Device::default();
    let r = dev.malloc(&mut rt, 16).unwrap();
    let before = rt.call_count();
    let s = r.slice(&mut rt, 4, 8);
    assert_eq!(rt.call_count(), before);
    assert_eq!(s.offset, 4);
    assert_eq!(s.nbytes, 8);
    s.release(&mut rt).unwrap();
    r.release(&mut rt).unwrap();
    assert_eq!(rt.free_call_count(), 1);
}

#[test]
fn scenario_zero_then_sliced_kilobyte() {
    let mut rt = Runtime::new();
    let dev = Device::default();

    let z = dev.malloc(&mut rt, 0).unwrap();
    z.release(&mut rt).unwrap();
    assert_eq!(rt.call_count(), 0);

    let r = dev.malloc(&mut rt, 1024).unwrap();
    let lo = r.slice(&mut rt, 0, 512);
    let hi = r.slice(&mut rt, 512, 512);
    r.release(&mut rt).unwrap();
    lo.release(&mut rt).unwrap();
    assert_eq!(rt.free_call_count(), 0);
    hi.release(&mut rt).unwrap();
    assert_eq!(rt.free_call_count(), 1);
    assert_eq!(rt.log, vec![NativeCall::Malloc, NativeCall::Free]);
}

#[test]
fn sync_round_trip_reproduces_data() {
    let mut rt = Runtime::new();
    let dev = Device::default();
    let data: Vec<u8> = vec![0, 1, 2, 3, 250, 251, 252, 253, 254, 255];
    let blob = dev.from_host(&mut rt, &data).unwrap();
    let mut out: Vec<u8> = vec![0; data.len()];
    dev.memcpy_d2h(&mut rt, &mut out, &blob).unwrap();
    assert_eq!(out, data);
    blob.release(&mut rt).unwrap();
}

#[test]
fn h2d_then_d2h_through_slices() {
    let mut rt = Runtime::new();
    let dev = Device::default();
    let r = dev.malloc(&mut rt, 8).unwrap();
    let lo = r.slice(&mut rt, 0, 4);
    let hi = r.slice(&mut rt, 4, 4);
    dev.memcpy_h2d(&mut rt, &lo, &[1, 2, 3, 4]).unwrap();
    dev.memcpy_h2d(&mut rt, &hi, &[5, 6, 7, 8]).unwrap();
    let mut out: Vec<u8> = vec![0; 8];
    dev.memcpy_d2h(&mut rt, &mut out, &r).unwrap();
    assert_eq!(out, vec![1, 2, 3, 4, 5, 6, 7, 8]);
    let mut high_half: Vec<u8> = vec![0; 4];
    dev.memcpy_d2h(&mut rt, &mut high_half, &hi).unwrap();
    assert_eq!(high_half, vec![5, 6, 7, 8]);
    lo.release(&mut rt).unwrap();
    hi.release(&mut rt).unwrap();
    r.release(&mut rt).unwrap();
}

#[test]
fn d2d_copies_between_regions() {
    let mut rt = Runtime::new();
    let dev = Device::default();
    let src = dev.from_host(&mut rt, &[9, 8, 7]).unwrap();
    let dst = dev.malloc(&mut rt, 3).unwrap();
    dev.memcpy_d2d(&mut rt, &dst, &src).unwrap();
    let mut out: Vec<u8> = vec![0; 3];
    dev.memcpy_d2h(&mut rt, &mut out, &dst).unwrap();
    assert_eq!(out, vec![9, 8, 7]);
    src.release(&mut rt).unwrap();
    dst.release(&mut rt).unwrap();
}

#[test]
fn copy_size_mismatch_is_rejected_before_native_call() {
    let mut rt = Runtime::new();
    let dev = Device::default();
    let dst = dev.malloc(&mut rt, 4).unwrap();
    let before = rt.call_count();
    assert_eq!(
        dev.memcpy_h2d(&mut rt, &dst, &[1, 2, 3]),
        Err(infinicore::Error::SizeMismatch)
    );
    let mut small: Vec<u8> = vec![0; 3];
    assert_eq!(
        dev.memcpy_d2h(&mut rt, &mut small, &dst),
        Err(infinicore::Error::SizeMismatch)
    );
    assert_eq!(rt.call_count(), before);
    dst.release(&mut rt).unwrap();
}

#[test]
fn host_region_fill_and_read_back() {
    let mut rt = Runtime::new();
    let dev = Device::default();
    let host = dev.malloc_host(&mut rt, 5).unwrap();
    assert_eq!(rt.log, vec![NativeCall::MallocHost]);
    host.fill(&mut rt, &[10, 20, 30, 40, 50]);
    assert_eq!(host.to_vec(&rt), vec![10, 20, 30, 40, 50]);
    host.release(&mut rt).unwrap();
    assert_eq!(rt.log, vec![NativeCall::MallocHost, NativeCall::FreeHost]);
}

#[test]
fn zero_length_copies_make_no_native_call() {
    let mut rt = Runtime::new();
    let dev = Device::default();
    let a = dev.malloc(&mut rt, 0).unwrap();
    let b = dev.malloc(&mut rt, 0).unwrap();
    dev.memcpy_d2d(&mut rt, &a, &b).unwrap();
    dev.memcpy_h2d(&mut rt, &a, &[]).unwrap();
    let mut out: Vec<u8> = Vec::new();
    dev.memcpy_d2h(&mut rt, &mut out, &b).unwrap();
    assert_eq!(rt.call_count(), 0);
    a.release(&mut rt).unwrap();
    b.release(&mut rt).unwrap();
}

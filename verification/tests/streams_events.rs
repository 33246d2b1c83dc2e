//! Asynchronous streams, event ordering and the mock scheduler.

use infinicore::Device;
use infinicore::NativeCall;
use infinicore::Runtime;

#[test]
fn stream_create_and_destroy_are_logged() {
    let mut rt = Runtime::new();
    let dev = Device::default();
    let stream = dev.stream(&mut rt).unwrap();
    stream.destroy(&mut rt).unwrap();
    assert_eq!(
        rt.log,
        vec![NativeCall::StreamCreate, NativeCall::StreamDestroy]
    );
}

#[test]
fn async_round_trip_through_stream() {
    let mut rt = Runtime::new();
    let dev = Device::default();
    let stream = dev.stream(&mut rt).unwrap();
    let data: Vec<u8> = vec![11, 22, 33, 44];

    let blob = stream.from_host(&mut rt, &data).unwrap();
    let host = dev.malloc_host(&mut rt, data.len()).unwrap();
    stream.memcpy_d2h(&mut rt, &host, &blob).unwrap();
    stream.synchronize(&mut rt).unwrap();
    assert_eq!(host.to_vec(&rt), data);

    stream.free(&mut rt, blob).unwrap();
    host.release(&mut rt).unwrap();
    stream.synchronize(&mut rt).unwrap();
    stream.destroy(&mut rt).unwrap();
}

#[test]
fn async_work_completes_only_when_scheduled() {
    let mut rt = Runtime::new();
    let dev = Device::default();
    let stream = dev.stream(&mut rt).unwrap();
    let host_src = dev.malloc_host(&mut rt, 2).unwrap();
    host_src.fill(&mut rt, &[7, 9]);
    let blob = stream.malloc(&mut rt, 2).unwrap();
    stream.memcpy_h2d(&mut rt, &blob, &host_src).unwrap();

    // Nothing has run yet: the copy is only enqueued.
    let host_dst = dev.malloc_host(&mut rt, 2).unwrap();
    stream.memcpy_d2h(&mut rt, &host_dst, &blob).unwrap();
    assert_eq!(host_dst.to_vec(&rt), vec![0, 0]);

    stream.synchronize(&mut rt).unwrap();
    assert_eq!(host_dst.to_vec(&rt), vec![7, 9]);

    stream.free(&mut rt, blob).unwrap();
    host_src.release(&mut rt).unwrap();
    host_dst.release(&mut rt).unwrap();
}

#[test]
fn event_orders_work_across_streams() {
    let mut rt = Runtime::new();
    let dev = Device::default();
    let a = dev.stream(&mut rt).unwrap();
    let b = dev.stream(&mut rt).unwrap();
    let event = dev.event(&mut rt).unwrap();

    // Enqueue work on A, record the event after it, then make B wait.
    let w = a.malloc(&mut rt, 8).unwrap();
    a.record(&mut rt, &event).unwrap();
    b.wait(&mut rt, &event).unwrap();
    let x = b.malloc(&mut rt, 8).unwrap();

    assert_eq!(event.is_complete(&mut rt), Ok(false));

    // B cannot start its work before A's completion marker is observed.
    assert!(!rt.advance(b.id));
    assert!(rt.advance(a.id));
    assert_eq!(event.is_complete(&mut rt), Ok(true));
    assert!(rt.advance(b.id));
    assert!(!rt.advance(b.id));

    a.free(&mut rt, w).unwrap();
    b.free(&mut rt, x).unwrap();
    dev.synchronize(&mut rt).unwrap();
}

#[test]
fn event_synchronize_drives_the_recording_stream() {
    let mut rt = Runtime::new();
    let dev = Device::default();
    let stream = dev.stream(&mut rt).unwrap();
    let event = dev.event(&mut rt).unwrap();
    let blob = stream.malloc(&mut rt, 4).unwrap();
    stream.record(&mut rt, &event).unwrap();
    assert_eq!(event.is_complete(&mut rt), Ok(false));
    event.synchronize(&mut rt).unwrap();
    assert_eq!(event.is_complete(&mut rt), Ok(true));
    stream.free(&mut rt, blob).unwrap();
    stream.synchronize(&mut rt).unwrap();
    event.destroy(&mut rt).unwrap();
    stream.destroy(&mut rt).unwrap();
}

#[test]
fn chained_waits_drain_in_dependency_order() {
    let mut rt = Runtime::new();
    let dev = Device::default();
    let a = dev.stream(&mut rt).unwrap();
    let b = dev.stream(&mut rt).unwrap();
    let c = dev.stream(&mut rt).unwrap();
    let ea = dev.event(&mut rt).unwrap();
    let eb = dev.event(&mut rt).unwrap();

    let wa = a.malloc(&mut rt, 1).unwrap();
    a.record(&mut rt, &ea).unwrap();
    b.wait(&mut rt, &ea).unwrap();
    let wb = b.malloc(&mut rt, 1).unwrap();
    b.record(&mut rt, &eb).unwrap();
    c.wait(&mut rt, &eb).unwrap();
    let wc = c.malloc(&mut rt, 1).unwrap();

    // C is held back through B's wait on A; only A can move first.
    assert!(!rt.advance(c.id));
    assert!(!rt.advance(b.id));
    assert!(rt.advance(a.id));
    assert!(!rt.advance(c.id));
    assert!(rt.advance(b.id));
    assert!(rt.advance(c.id));

    // Synchronizing the last stream of the chain drains everything.
    c.synchronize(&mut rt).unwrap();
    dev.synchronize(&mut rt).unwrap();

    a.free(&mut rt, wa).unwrap();
    b.free(&mut rt, wb).unwrap();
    c.free(&mut rt, wc).unwrap();
}

#[test]
fn waiting_on_an_unrecorded_event_does_not_block() {
    let mut rt = Runtime::new();
    let dev = Device::default();
    let a = dev.stream(&mut rt).unwrap();
    let event = dev.event(&mut rt).unwrap();
    a.wait(&mut rt, &event).unwrap();
    let w = a.malloc(&mut rt, 1).unwrap();
    assert!(rt.advance(a.id));
    a.free(&mut rt, w).unwrap();
    a.synchronize(&mut rt).unwrap();
}

#[test]
fn stream_free_defers_until_the_stream_reaches_it() {
    let mut rt = Runtime::new();
    let dev = Device::default();
    let stream = dev.stream(&mut rt).unwrap();
    let blob = stream.malloc(&mut rt, 32).unwrap();
    let idx = blob.alloc.unwrap();

    stream.free(&mut rt, blob).unwrap();
    assert_eq!(rt.free_call_count(), 1);
    // The native free-async call was made, but the allocation dies only
    // when the stream reaches the enqueued free op.
    assert!(rt.allocs[idx].alive);
    stream.synchronize(&mut rt).unwrap();
    assert!(!rt.allocs[idx].alive);
}

#[test]
fn stream_free_skips_enqueue_while_other_handles_share() {
    let mut rt = Runtime::new();
    let dev = Device::default();
    let stream = dev.stream(&mut rt).unwrap();
    let r = dev.malloc(&mut rt, 16).unwrap();
    let s = r.slice(&mut rt, 0, 8);
    stream.free(&mut rt, r).unwrap();
    assert_eq!(rt.free_call_count(), 0);
    stream.free(&mut rt, s).unwrap();
    assert_eq!(rt.free_call_count(), 1);
    stream.synchronize(&mut rt).unwrap();
}

#[test]
fn get_device_reflects_ambient_active_device() {
    let mut rt = Runtime::new();
    let cpu = Device::default();
    let gpu = Device::new(infinicore::DeviceType::CUDA, 3);
    let stream = cpu.stream(&mut rt).unwrap();
    gpu.set_device(&mut rt).unwrap();
    // The stream was created under the CPU device, but the query reads
    // the ambient active device.
    let seen = stream.get_device(&mut rt).unwrap();
    assert_eq!(seen, gpu);
}

#[test]
fn device_synchronize_drains_all_streams() {
    let mut rt = Runtime::new();
    let dev = Device::default();
    let a = dev.stream(&mut rt).unwrap();
    let b = dev.stream(&mut rt).unwrap();
    let x = a.malloc(&mut rt, 4).unwrap();
    let y = b.malloc(&mut rt, 4).unwrap();
    dev.synchronize(&mut rt).unwrap();
    assert_eq!(rt.streams[a.id].completed, rt.streams[a.id].ops.len());
    assert_eq!(rt.streams[b.id].completed, rt.streams[b.id].ops.len());
    a.free(&mut rt, x).unwrap();
    b.free(&mut rt, y).unwrap();
    dev.synchronize(&mut rt).unwrap();
}

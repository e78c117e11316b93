use vkgpu::device::{get_last_completed_serial, get_last_submitted_serial, Device};
use vkgpu::fence::{Fence, WaitStep};
use vkgpu::fenced_deleter::FencedDeleter;
use vkgpu::queue::Queue;
use vkgpu::render_pass::{ColorInfo, DepthStencilInfo, RenderPassCache, RenderPassCacheQuery};
use vkgpu::serial::SerialClock;
use vkgpu::types::{LoadOp, TextureFormat};

fn query(format: TextureFormat, load_op: LoadOp) -> RenderPassCacheQuery {
    let mut q = RenderPassCacheQuery::new();
    q.add_color(ColorInfo { format, load_op });
    q
}

#[test]
fn identical_keys_share_a_render_pass() {
    let mut cache = RenderPassCache::new();
    let (first, created) = cache.get_render_pass(query(TextureFormat::B8G8R8A8Unorm, LoadOp::Clear));
    assert!(created);
    let (second, created_again) = cache.get_render_pass(query(TextureFormat::B8G8R8A8Unorm, LoadOp::Clear));
    assert!(!created_again);
    assert_eq!(first, second);
}

#[test]
fn differing_keys_get_distinct_render_passes() {
    let mut cache = RenderPassCache::new();
    let (a, _) = cache.get_render_pass(query(TextureFormat::B8G8R8A8Unorm, LoadOp::Clear));
    let (b, created_b) = cache.get_render_pass(query(TextureFormat::B8G8R8A8Unorm, LoadOp::Load));
    let (c, created_c) = cache.get_render_pass(query(TextureFormat::R8G8B8A8Unorm, LoadOp::Clear));
    let mut with_depth = query(TextureFormat::B8G8R8A8Unorm, LoadOp::Clear);
    with_depth.set_depth_stencil(DepthStencilInfo {
        format: TextureFormat::D32FloatS8Uint,
        stencil_load_op: LoadOp::Clear,
        depth_load_op: LoadOp::Clear,
    });
    let (d, created_d) = cache.get_render_pass(with_depth);
    assert!(created_b && created_c && created_d);
    assert_eq!((a, b, c, d), (0, 1, 2, 3));
    assert_eq!(cache.query(1).unwrap().colors[0].load_op, LoadOp::Load);
    assert!(cache.query(4).is_none());
}

#[test]
fn completed_serial_is_monotonic_and_capped() {
    let mut clock = SerialClock::new();
    clock.submit();
    clock.submit();
    clock.submit();
    clock.observe_completed(2);
    assert_eq!(clock.get_last_completed_serial(), 2);
    clock.observe_completed(1);
    assert_eq!(clock.get_last_completed_serial(), 2);
    clock.observe_completed(10);
    assert_eq!(clock.get_last_completed_serial(), 3);
    assert_eq!(clock.get_last_submitted_serial(), 3);
    assert_eq!(clock.get_next_pending_serial(), 4);
}

#[test]
fn deleter_waits_for_the_serial() {
    let mut deleter = FencedDeleter::new();
    deleter.delete_when_unused(100, 2);
    deleter.delete_when_unused(101, 1);
    deleter.delete_when_unused(102, 3);
    assert!(deleter.tick(0).is_empty());
    assert_eq!(deleter.tick(1), vec![101]);
    assert_eq!(deleter.tick(1), Vec::<u64>::new());
    assert_eq!(deleter.tick(3), vec![100, 102]);
    assert!(deleter.entries.is_empty());
}

#[test]
fn device_tick_reaps_due_framebuffers() {
    let mut device = Device::new();
    device.submit_pending_commands();
    device.deleter.delete_when_unused(7, 1);
    device.deleter.delete_when_unused(8, 2);
    assert!(device.tick(0).is_empty());
    assert_eq!(device.tick(5), vec![7]);
    assert_eq!(get_last_completed_serial(&device), 1);
    assert_eq!(get_last_submitted_serial(&device), 1);
    assert_eq!(device.deleter.entries, vec![(8, 2)]);
}

#[test]
fn fence_reset_then_wait_does_not_stall_when_done() {
    let mut device = Device::new();
    device.submit_pending_commands();
    device.tick(1);
    let mut fence = Fence { serial: 0 };
    fence.reset(&device);
    assert_eq!(fence.serial, 1);
    assert!(fence.is_signaled(&device));
    assert_eq!(fence.wait_step(&device, false, false), WaitStep::Signaled { stalled: false });
}

#[test]
fn fence_wait_that_polls_reports_stall() {
    let mut device = Device::new();
    device.submit_pending_commands();
    let queue = Queue::new(device);
    let fence = queue.create_fence();
    let mut device = queue.device;
    assert!(!fence.is_signaled(&device));
    assert_eq!(fence.wait_step(&device, false, false), WaitStep::Poll { yield_first: false });
    assert_eq!(fence.wait_step(&device, true, false), WaitStep::Poll { yield_first: true });
    device.tick(1);
    assert_eq!(fence.wait_step(&device, true, false), WaitStep::Signaled { stalled: true });
}

#[test]
fn fence_wait_times_out() {
    let mut device = Device::new();
    device.submit_pending_commands();
    let fence = Fence::new(&device);
    assert_eq!(fence.wait_step(&device, true, true), WaitStep::TimedOut);
    device.tick(1);
    assert_eq!(fence.wait_step(&device, true, true), WaitStep::Signaled { stalled: true });
}

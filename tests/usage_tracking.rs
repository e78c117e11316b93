use vkgpu::flags::{
    BUFFER_STORAGE, BUFFER_TRANSFER_SRC, BUFFER_UNIFORM, BUFFER_VERTEX, TEXTURE_OUTPUT_ATTACHMENT,
    TEXTURE_SAMPLED, TEXTURE_STORAGE,
};
use vkgpu::pass_resource_usage::{PassResourceUsageTracker, PassType};
use vkgpu::types::{Buffer, Extent3D, Texture, TextureDescriptor, TextureDimension, TextureFormat};

fn texture(handle: u64) -> Texture {
    Texture {
        handle,
        descriptor: TextureDescriptor {
            size: Extent3D { width: 4, height: 4, depth: 1 },
            array_layer_count: 1,
            mip_level_count: 1,
            sample_count: 1,
            dimension: TextureDimension::D2,
            format: TextureFormat::R8G8B8A8Unorm,
            usage: TEXTURE_SAMPLED | TEXTURE_OUTPUT_ATTACHMENT,
        },
    }
}

#[test]
fn acquired_usage_is_union_per_resource() {
    let mut tracker = PassResourceUsageTracker::new();
    let a = Buffer { handle: 10 };
    let b = Buffer { handle: 11 };
    tracker.buffer_used_as(a, BUFFER_VERTEX);
    tracker.buffer_used_as(b, BUFFER_UNIFORM);
    tracker.buffer_used_as(a, BUFFER_TRANSFER_SRC);
    tracker.buffer_used_as(a, BUFFER_VERTEX);
    tracker.texture_used_as(texture(20), TEXTURE_SAMPLED);
    tracker.texture_used_as(texture(20), TEXTURE_OUTPUT_ATTACHMENT);
    let usage = tracker.acquire_resource_usage();
    assert_eq!(usage.buffers.len(), 2);
    assert_eq!(usage.buffers[0].0, a);
    assert_eq!(usage.buffers[0].1, BUFFER_VERTEX | BUFFER_TRANSFER_SRC);
    assert_eq!(usage.buffers[1].0, b);
    assert_eq!(usage.buffers[1].1, BUFFER_UNIFORM);
    assert_eq!(usage.textures.len(), 1);
    assert_eq!(usage.textures[0].0.handle, 20);
    assert_eq!(usage.textures[0].1, TEXTURE_SAMPLED | TEXTURE_OUTPUT_ATTACHMENT);
}

#[test]
fn acquire_leaves_tracker_empty() {
    let mut tracker = PassResourceUsageTracker::new();
    tracker.buffer_used_as(Buffer { handle: 1 }, BUFFER_VERTEX);
    let first = tracker.acquire_resource_usage();
    assert_eq!(first.buffers.len(), 1);
    let second = tracker.acquire_resource_usage();
    assert!(second.buffers.is_empty());
    assert!(second.textures.is_empty());
}

#[test]
fn empty_pass_acquires_nothing() {
    let mut tracker = PassResourceUsageTracker::new();
    let usage = tracker.acquire_resource_usage();
    assert!(usage.buffers.is_empty());
    assert!(usage.textures.is_empty());
    assert!(!tracker.storage_used_multiple_times);
}

#[test]
fn storage_twice_sets_multiple_use_flag() {
    let mut tracker = PassResourceUsageTracker::new();
    let a = Buffer { handle: 3 };
    tracker.buffer_used_as(a, BUFFER_STORAGE);
    assert!(!tracker.storage_used_multiple_times);
    tracker.buffer_used_as(a, BUFFER_STORAGE);
    assert!(tracker.storage_used_multiple_times);
}

#[test]
fn storage_once_or_with_other_usage_does_not_set_flag() {
    let mut tracker = PassResourceUsageTracker::new();
    let a = Buffer { handle: 3 };
    tracker.buffer_used_as(a, BUFFER_STORAGE);
    tracker.buffer_used_as(a, BUFFER_UNIFORM);
    tracker.buffer_used_as(Buffer { handle: 4 }, BUFFER_STORAGE);
    assert!(!tracker.storage_used_multiple_times);

    let mut textures = PassResourceUsageTracker::new();
    textures.texture_used_as(texture(5), TEXTURE_SAMPLED);
    textures.texture_used_as(texture(5), TEXTURE_STORAGE);
    assert!(!textures.storage_used_multiple_times);
    textures.texture_used_as(texture(5), TEXTURE_STORAGE | TEXTURE_SAMPLED);
    assert!(textures.storage_used_multiple_times);
}

#[test]
fn validate_usages_accepts_every_pass() {
    assert_eq!(PassResourceUsageTracker::validate_usages(PassType::Render), Ok(()));
    assert_eq!(PassResourceUsageTracker::validate_usages(PassType::Compute), Ok(()));
}

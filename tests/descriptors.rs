use vkgpu::flags::TEXTURE_OUTPUT_ATTACHMENT;
use vkgpu::types::{
    BindGroupLayout, DeviceDescriptor, Extensions, PipelineLayout, PowerPreference, Surface,
    SwapchainDescriptor, TextureFormat,
};
use vkgpu::descriptor_set_tracker::DescriptorSetTracker;
use vkgpu::native::{BindPoint, NativeCommand};

fn layout(handle: u64, groups: &[u64]) -> PipelineLayout {
    PipelineLayout {
        handle,
        bind_group_layouts: groups.iter().map(|&h| BindGroupLayout { handle: h }).collect(),
    }
}

fn bind(slot: u32, set: u64, layout: u64) -> NativeCommand {
    NativeCommand::BindDescriptorSet {
        bind_point: BindPoint::Graphics,
        layout,
        slot,
        set,
        offsets_from: None,
    }
}

#[test]
fn layout_switch_keeps_compatible_prefix() {
    let l1 = layout(100, &[1, 2, 3]);
    let l2 = layout(200, &[1, 9, 3]);
    let mut tracker = DescriptorSetTracker::new();
    tracker.on_pipeline_layout_change(&l1);
    tracker.on_set_bind_group(0, 50, None);
    tracker.on_set_bind_group(1, 51, None);
    tracker.on_set_bind_group(2, 52, Some(7));
    let mut ops = Vec::new();
    assert!(tracker.flush(BindPoint::Graphics, &mut ops));
    assert_eq!(
        ops,
        vec![
            bind(0, 50, 100),
            bind(1, 51, 100),
            NativeCommand::BindDescriptorSet {
                bind_point: BindPoint::Graphics,
                layout: 100,
                slot: 2,
                set: 52,
                offsets_from: Some(7),
            },
        ]
    );

    tracker.on_pipeline_layout_change(&l2);
    assert_eq!(tracker.sets, vec![50, 0, 0, 0]);
    assert_eq!(tracker.dirty_sets, vec![false, false, false, false]);
    assert_eq!(tracker.dynamic_offsets, vec![None, None, None, None]);

    let mut again = Vec::new();
    assert!(tracker.flush(BindPoint::Graphics, &mut again));
    assert!(again.is_empty());

    tracker.on_set_bind_group(1, 61, None);
    tracker.flush(BindPoint::Graphics, &mut again);
    assert_eq!(again, vec![bind(1, 61, 200)]);
}

#[test]
fn first_layout_disturbs_every_slot() {
    let mut tracker = DescriptorSetTracker::new();
    tracker.on_set_bind_group(0, 5, None);
    tracker.on_set_bind_group(3, 6, None);
    tracker.on_pipeline_layout_change(&layout(1, &[1]));
    assert_eq!(tracker.sets, vec![0, 0, 0, 0]);
    assert_eq!(tracker.dirty_sets, vec![false, false, false, false]);
}

#[test]
fn same_layout_is_a_no_op() {
    let l = layout(7, &[1, 2]);
    let mut tracker = DescriptorSetTracker::new();
    tracker.on_pipeline_layout_change(&l);
    tracker.on_set_bind_group(1, 40, None);
    tracker.on_pipeline_layout_change(&l);
    assert_eq!(tracker.sets, vec![0, 40, 0, 0]);
    assert_eq!(tracker.dirty_sets, vec![false, true, false, false]);
}

#[test]
fn flush_without_layout_binds_nothing() {
    let mut tracker = DescriptorSetTracker::new();
    tracker.on_set_bind_group(0, 5, None);
    let mut ops = Vec::new();
    assert!(!tracker.flush(BindPoint::Compute, &mut ops));
    assert!(ops.is_empty());
    assert_eq!(tracker.dirty_sets, vec![true, false, false, false]);
}

#[test]
fn flush_skips_null_sets_and_clears_dirty() {
    let mut tracker = DescriptorSetTracker::new();
    tracker.on_pipeline_layout_change(&layout(3, &[1, 2]));
    tracker.on_set_bind_group(0, 0, None);
    tracker.on_set_bind_group(1, 8, None);
    let mut ops = Vec::new();
    tracker.flush(BindPoint::Compute, &mut ops);
    assert_eq!(
        ops,
        vec![NativeCommand::BindDescriptorSet {
            bind_point: BindPoint::Compute,
            layout: 3,
            slot: 1,
            set: 8,
            offsets_from: None,
        }]
    );
    assert_eq!(tracker.dirty_sets, vec![false, false, false, false]);
}

#[test]
fn device_descriptor_with_surface_support() {
    let d = DeviceDescriptor { extensions: Extensions { anisotropic_filtering: true }, surface_support: None };
    let s = Surface { handle: 77 };
    let d2 = d.with_surface_support(s);
    assert_eq!(d2.surface_support, Some(s));
    assert!(d2.extensions.anisotropic_filtering);
}

#[test]
fn swapchain_descriptor_defaults() {
    let s = Surface { handle: 5 };
    let d = SwapchainDescriptor::default_with_surface(s);
    assert_eq!(d.surface, s);
    assert_eq!(d.format, TextureFormat::B8G8R8A8UnormSRGB);
    assert_eq!(d.usage, TEXTURE_OUTPUT_ATTACHMENT);
}

#[test]
fn power_preference_defaults_to_high_performance() {
    assert_eq!(PowerPreference::default(), PowerPreference::HighPerformance);
}

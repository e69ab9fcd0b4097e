use render_core::adapter::{
    adapter_eligible, device_rank, find_queue_family, needs_dynamic_rendering_extension,
    select_adapter, AdapterProfile, ApiVersion, DeviceKind, QueueFamily,
};
use render_core::geometry::{
    align_usize, element_count, geometry_byte_ranges, staging_arena_size, BufferRegion,
    INDEX_BYTE_STRIDE, STAGING_ALIGNMENT, VERTEX_BYTE_STRIDE,
};

fn family(graphics: bool, surface: bool) -> QueueFamily {
    QueueFamily { supports_graphics: graphics, supports_surface: surface }
}

fn adapter(kind: DeviceKind, major: u32, minor: u32, dyn_ext: bool, swapchain: bool, families: Vec<QueueFamily>) -> AdapterProfile {
    AdapterProfile {
        api_version: ApiVersion { major, minor },
        has_dynamic_rendering_extension: dyn_ext,
        has_swapchain_extension: swapchain,
        kind,
        queue_families: families,
    }
}

#[test]
fn ranks_follow_the_preference_order() {
    assert_eq!(device_rank(DeviceKind::DiscreteGpu), 0);
    assert_eq!(device_rank(DeviceKind::IntegratedGpu), 1);
    assert_eq!(device_rank(DeviceKind::VirtualGpu), 2);
    assert_eq!(device_rank(DeviceKind::Cpu), 3);
    assert_eq!(device_rank(DeviceKind::Other), 4);
}

#[test]
fn discrete_beats_integrated() {
    let adapters = vec![
        adapter(DeviceKind::IntegratedGpu, 1, 3, false, true, vec![family(true, true)]),
        adapter(DeviceKind::DiscreteGpu, 1, 3, false, true, vec![family(true, true)]),
    ];
    assert_eq!(select_adapter(&adapters), Some((1, 0)));
}

#[test]
fn first_of_equally_ranked_adapters_wins() {
    let adapters = vec![
        adapter(DeviceKind::DiscreteGpu, 1, 3, false, true, vec![family(true, true)]),
        adapter(DeviceKind::DiscreteGpu, 1, 3, false, true, vec![family(true, true)]),
    ];
    assert_eq!(select_adapter(&adapters), Some((0, 0)));
}

#[test]
fn ineligible_adapters_are_passed_over() {
    let adapters = vec![
        // no swapchain support
        adapter(DeviceKind::DiscreteGpu, 1, 3, false, false, vec![family(true, true)]),
        // old interface and no dynamic-rendering extension
        adapter(DeviceKind::DiscreteGpu, 1, 2, false, true, vec![family(true, true)]),
        // no queue family that can both draw and present
        adapter(DeviceKind::DiscreteGpu, 1, 3, false, true, vec![family(true, false), family(false, true)]),
        // old interface but the extension fills in
        adapter(DeviceKind::Cpu, 1, 2, true, true, vec![family(true, true)]),
    ];
    assert!(!adapter_eligible(&adapters[0]));
    assert!(!adapter_eligible(&adapters[1]));
    assert!(!adapter_eligible(&adapters[2]));
    assert!(adapter_eligible(&adapters[3]));
    assert_eq!(select_adapter(&adapters), Some((3, 0)));
}

#[test]
fn no_eligible_adapter_yields_none() {
    let adapters = vec![
        adapter(DeviceKind::DiscreteGpu, 1, 2, false, true, vec![family(true, true)]),
    ];
    assert_eq!(select_adapter(&adapters), None);
    let empty: Vec<AdapterProfile> = Vec::new();
    assert_eq!(select_adapter(&empty), None);
}

#[test]
fn the_first_usable_queue_family_is_chosen() {
    let families = vec![family(true, false), family(false, true), family(true, true), family(true, true)];
    assert_eq!(find_queue_family(&families), Some(2));
}

#[test]
fn dynamic_rendering_extension_is_needed_below_one_three() {
    assert!(needs_dynamic_rendering_extension(ApiVersion { major: 1, minor: 2 }));
    assert!(!needs_dynamic_rendering_extension(ApiVersion { major: 1, minor: 3 }));
    assert!(!needs_dynamic_rendering_extension(ApiVersion { major: 2, minor: 0 }));
}

#[test]
fn align_rounds_up_to_the_alignment() {
    assert_eq!(align_usize(10, 4), 12);
    assert_eq!(align_usize(12, 4), 12);
    assert_eq!(align_usize(0, 256), 0);
    assert_eq!(align_usize(1, 256), 256);
    assert_eq!(align_usize(256, 256), 256);
    assert_eq!(align_usize(257, 256), 512);
}

#[test]
fn staging_arena_covers_both_payloads() {
    let size = staging_arena_size(300, 100);
    assert_eq!(size, 512);
    assert_eq!(size % STAGING_ALIGNMENT, 0);
    assert_eq!(staging_arena_size(0, 0), 0);
}

#[test]
fn geometry_ranges_check_the_buffer_bounds() {
    let vertex = BufferRegion { offset: 0, length: 288 };
    let index = BufferRegion { offset: 288, length: 72 };
    let ranges = geometry_byte_ranges(360, vertex, index).expect("regions fit");
    assert_eq!(ranges.vertex_start, 0);
    assert_eq!(ranges.vertex_end, 288);
    assert_eq!(ranges.index_start, 288);
    assert_eq!(ranges.index_end, 360);

    assert!(geometry_byte_ranges(359, vertex, index).is_none());
    let runaway = BufferRegion { offset: usize::MAX, length: 2 };
    assert!(geometry_byte_ranges(360, vertex, runaway).is_none());
}

#[test]
fn element_counts_demand_whole_elements() {
    assert_eq!(element_count(288, VERTEX_BYTE_STRIDE), Some(24));
    assert_eq!(element_count(72, INDEX_BYTE_STRIDE), Some(36));
    assert_eq!(element_count(289, VERTEX_BYTE_STRIDE), None);
    assert_eq!(element_count(71, INDEX_BYTE_STRIDE), None);
}

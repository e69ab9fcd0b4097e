use render_core::extent::{resolve_extent, Extent};
use render_core::present::PresentMode;
use render_core::swapchain::{image_count, ImageFormat, SurfaceCapabilities, SurfaceSwapchain};

fn caps(min: u32, max: Option<u32>, current: Option<Extent>) -> SurfaceCapabilities {
    SurfaceCapabilities { min_image_count: min, max_image_count: max, current_extent: current }
}

#[test]
fn image_count_is_min_plus_one_when_unbounded() {
    assert_eq!(image_count(&caps(2, None, None)), 3);
    assert_eq!(image_count(&caps(1, None, None)), 2);
}

#[test]
fn image_count_is_capped_by_the_maximum() {
    assert_eq!(image_count(&caps(2, Some(2), None)), 2);
    assert_eq!(image_count(&caps(2, Some(3), None)), 3);
    assert_eq!(image_count(&caps(2, Some(8), None)), 3);
}

#[test]
fn image_count_stays_at_a_tight_maximum() {
    assert_eq!(image_count(&caps(1, Some(1), None)), 1);
}

#[test]
fn extent_prefers_the_surface_report() {
    let surface = Extent { width: 640, height: 480 };
    let window = Extent { width: 800, height: 600 };
    assert_eq!(resolve_extent(Some(surface), window), surface);
}

#[test]
fn extent_falls_back_to_the_window_size() {
    let window = Extent { width: 800, height: 600 };
    assert_eq!(resolve_extent(None, window), window);
}

#[test]
fn create_configures_from_capabilities() {
    let c = caps(2, Some(4), Some(Extent { width: 640, height: 480 }));
    let supported = vec![PresentMode::Mailbox, PresentMode::Fifo];
    let chain = SurfaceSwapchain::create(&c, Extent { width: 800, height: 600 }, true, &supported);
    assert_eq!(chain.extent, Extent { width: 640, height: 480 });
    assert_eq!(chain.present_mode, PresentMode::Mailbox);
    assert_eq!(chain.image_count, 3);
    assert_eq!(chain.format, ImageFormat::B8G8R8A8Srgb);
    assert_eq!(chain.generation, 0);
}

#[test]
fn recreate_with_same_surface_keeps_count_and_format() {
    let c = caps(3, Some(6), None);
    let supported = vec![PresentMode::Fifo];
    let window = Extent { width: 1024, height: 768 };
    let original = SurfaceSwapchain::create(&c, window, false, &supported);
    let mut chain = original;
    chain.recreate(&c, window);
    assert_eq!(chain.image_count, original.image_count);
    assert_eq!(chain.format, original.format);
    assert_eq!(chain.present_mode, original.present_mode);
    assert_eq!(chain.extent, original.extent);
    assert_eq!(chain.generation, original.generation + 1);
}

#[test]
fn recreate_follows_the_new_extent() {
    let supported = vec![PresentMode::Fifo];
    let mut chain = SurfaceSwapchain::create(
        &caps(2, None, None),
        Extent { width: 800, height: 600 },
        true,
        &supported,
    );
    chain.recreate(&caps(2, None, None), Extent { width: 300, height: 200 });
    assert_eq!(chain.extent, Extent { width: 300, height: 200 });
    chain.recreate(
        &caps(2, None, Some(Extent { width: 256, height: 128 })),
        Extent { width: 300, height: 200 },
    );
    assert_eq!(chain.extent, Extent { width: 256, height: 128 });
    assert_eq!(chain.generation, 2);
}

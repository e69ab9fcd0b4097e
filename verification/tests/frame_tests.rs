use render_core::extent::Extent;
use render_core::frame::{
    AcquireResult, BeginAction, FrameOutcome, PresentResult,
};
use render_core::renderer::{RedrawStep, WindowRenderer, INSTANCE_REPLICATION};
use render_core::present::PresentMode;
use render_core::swapchain::SurfaceCapabilities;

fn caps() -> SurfaceCapabilities {
    SurfaceCapabilities { min_image_count: 2, max_image_count: Some(4), current_extent: None }
}

fn modes() -> Vec<PresentMode> {
    vec![PresentMode::Mailbox, PresentMode::Fifo]
}

fn fresh_renderer(window_size: Extent) -> WindowRenderer {
    WindowRenderer::new(1_000, 0, 4, true, &caps(), window_size, &modes())
}

const ZERO: Extent = Extent { width: 0, height: 0 };
const SIZE: Extent = Extent { width: 800, height: 600 };

#[test]
fn zero_size_redraw_is_skipped() {
    let mut renderer = fresh_renderer(ZERO);
    let before = renderer;
    let action = renderer.begin_redraw(&caps(), ZERO);
    assert_eq!(action, BeginAction::Skip);
    assert_eq!(renderer, before);
}

#[test]
fn zero_height_redraw_is_skipped() {
    let mut renderer = fresh_renderer(SIZE);
    let squashed = Extent { width: 800, height: 0 };
    let action = renderer.begin_redraw(&caps(), squashed);
    assert_eq!(action, BeginAction::Skip);
    assert_eq!(renderer.gpu.unwrap().sync.token.id, 0);
}

#[test]
fn first_redraw_presents_and_replaces_the_token() {
    let mut renderer = fresh_renderer(SIZE);
    let held_before = renderer.gpu.unwrap().sync.token;
    assert!(held_before.is_settled());

    let action = renderer.begin_redraw(&caps(), SIZE);
    assert_eq!(action, BeginAction::Acquire { rebuilt: false });

    let step = renderer.on_image_ready(
        AcquireResult::Ready { image_index: 1, suboptimal: false },
        1_016,
    );
    match step {
        RedrawStep::Submit(params) => {
            assert_eq!(params.image_index, 1);
            assert_eq!(params.elapsed_millis, 16);
            assert_eq!(params.instance_count, INSTANCE_REPLICATION);
            assert_eq!(params.instance_count, 10);
        }
        RedrawStep::Finish(_) => panic!("a fresh acquire must lead to a submission"),
    }

    let outcome = renderer.finish_redraw(PresentResult::Completed, &caps(), SIZE);
    assert_eq!(outcome, FrameOutcome::Presented);
    let held_after = renderer.gpu.unwrap().sync.token;
    assert_ne!(held_after, held_before);
    assert!(!held_after.is_settled());
}

#[test]
fn present_failure_recreates_then_next_redraw_presents() {
    let mut renderer = fresh_renderer(SIZE);
    let generation_before = renderer.gpu.unwrap().swapchain.generation;

    let action = renderer.begin_redraw(&caps(), SIZE);
    assert_eq!(action, BeginAction::Acquire { rebuilt: false });
    let step = renderer.on_image_ready(
        AcquireResult::Ready { image_index: 0, suboptimal: false },
        1_001,
    );
    assert!(matches!(step, RedrawStep::Submit(_)));

    let outcome = renderer.finish_redraw(PresentResult::OutOfDate, &caps(), SIZE);
    assert_eq!(outcome, FrameOutcome::Recreated);
    assert_eq!(renderer.gpu.unwrap().swapchain.generation, generation_before + 1);
    assert!(renderer.gpu.unwrap().sync.token.is_settled());

    let action = renderer.begin_redraw(&caps(), SIZE);
    assert_eq!(action, BeginAction::Acquire { rebuilt: false });
    let step = renderer.on_image_ready(
        AcquireResult::Ready { image_index: 0, suboptimal: false },
        1_002,
    );
    assert!(matches!(step, RedrawStep::Submit(_)));
    let outcome = renderer.finish_redraw(PresentResult::Completed, &caps(), SIZE);
    assert_eq!(outcome, FrameOutcome::Presented);
    assert_eq!(renderer.gpu.unwrap().swapchain.generation, generation_before + 1);
}

#[test]
fn acquire_failure_recreates_on_the_next_frame() {
    let mut renderer = fresh_renderer(SIZE);
    let generation_before = renderer.gpu.unwrap().swapchain.generation;

    let action = renderer.begin_redraw(&caps(), SIZE);
    assert_eq!(action, BeginAction::Acquire { rebuilt: false });
    let step = renderer.on_image_ready(AcquireResult::OutOfDate, 1_001);
    assert_eq!(step, RedrawStep::Finish(FrameOutcome::Recreated));
    assert_eq!(renderer.gpu.unwrap().swapchain.generation, generation_before);

    let action = renderer.begin_redraw(&caps(), SIZE);
    assert_eq!(action, BeginAction::Acquire { rebuilt: true });
    assert_eq!(renderer.gpu.unwrap().swapchain.generation, generation_before + 1);
    let step = renderer.on_image_ready(
        AcquireResult::Ready { image_index: 2, suboptimal: false },
        1_002,
    );
    assert!(matches!(step, RedrawStep::Submit(_)));
    let outcome = renderer.finish_redraw(PresentResult::Completed, &caps(), SIZE);
    assert_eq!(outcome, FrameOutcome::Presented);
    assert_eq!(renderer.gpu.unwrap().swapchain.generation, generation_before + 1);
}

#[test]
fn suboptimal_acquire_still_presents_then_rebuilds_later() {
    let mut renderer = fresh_renderer(SIZE);

    renderer.begin_redraw(&caps(), SIZE);
    let step = renderer.on_image_ready(
        AcquireResult::Ready { image_index: 0, suboptimal: true },
        1_001,
    );
    assert!(matches!(step, RedrawStep::Submit(_)));
    let outcome = renderer.finish_redraw(PresentResult::Completed, &caps(), SIZE);
    assert_eq!(outcome, FrameOutcome::Presented);

    let generation = renderer.gpu.unwrap().swapchain.generation;
    let action = renderer.begin_redraw(&caps(), SIZE);
    assert_eq!(action, BeginAction::Acquire { rebuilt: true });
    assert_eq!(renderer.gpu.unwrap().swapchain.generation, generation + 1);
}

#[test]
fn skipped_frames_do_not_discharge_a_pending_rebuild() {
    let mut renderer = fresh_renderer(SIZE);
    let generation_before = renderer.gpu.unwrap().swapchain.generation;

    renderer.begin_redraw(&caps(), SIZE);
    let step = renderer.on_image_ready(AcquireResult::OutOfDate, 1_001);
    assert_eq!(step, RedrawStep::Finish(FrameOutcome::Recreated));

    // the window collapses before the next frame: the frame is skipped and
    // the rebuild stays owed
    let action = renderer.begin_redraw(&caps(), ZERO);
    assert_eq!(action, BeginAction::Skip);
    assert_eq!(renderer.gpu.unwrap().swapchain.generation, generation_before);

    // once the window has area again, the owed rebuild happens exactly once
    let action = renderer.begin_redraw(&caps(), SIZE);
    assert_eq!(action, BeginAction::Acquire { rebuilt: true });
    assert_eq!(renderer.gpu.unwrap().swapchain.generation, generation_before + 1);
}

#[test]
fn the_attachment_tracks_the_swapchain_extent() {
    let mut renderer = fresh_renderer(SIZE);
    let narrow = Extent { width: 320, height: 240 };
    renderer.on_resize(&caps(), narrow);
    let gpu = renderer.gpu.unwrap();
    assert_eq!(gpu.swapchain.extent, narrow);
    assert_eq!(gpu.attachment_extent, narrow);
}

#[test]
fn pointer_moves_normalize_against_the_window() {
    let mut renderer = fresh_renderer(SIZE);
    renderer.on_pointer_move(200, 150, SIZE);
    let pointer = renderer.pointer;
    assert_eq!(pointer.x.num, 200);
    assert_eq!(pointer.x.den, 800);
    assert_eq!(pointer.y.num, 150);
    assert_eq!(pointer.y.den, 600);
    assert!(pointer.x.num <= pointer.x.den);
    assert!(pointer.y.num <= pointer.y.den);

    renderer.on_pointer_move(800, 600, SIZE);
    assert!(renderer.pointer.x.num <= renderer.pointer.x.den);
    assert!(renderer.pointer.y.num <= renderer.pointer.y.den);
}

#[test]
fn deactivation_keeps_clock_and_pointer() {
    let mut renderer = fresh_renderer(SIZE);
    renderer.on_pointer_move(400, 300, SIZE);
    let start = renderer.start_millis;
    let pointer = renderer.pointer;

    renderer.deactivate();
    assert!(renderer.gpu.is_none());
    assert_eq!(renderer.start_millis, start);
    assert_eq!(renderer.pointer, pointer);

    renderer.activate(&caps(), SIZE, &modes());
    assert!(renderer.gpu.is_some());
    assert_eq!(renderer.start_millis, start);
    assert_eq!(renderer.pointer, pointer);
}

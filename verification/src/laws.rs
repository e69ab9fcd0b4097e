//! The engine's cross-cutting guarantees, each stated over the same spec
//! functions the executable contracts use and proved once and for all.

use vstd::prelude::*;
use crate::coordinator::{EventAction, RenderingCoordinator, SurfaceParams, WindowEvent};
use crate::extent::Extent;
use crate::frame::{AcquireResult, BeginAction, FrameOutcome, PresentResult};
use crate::present::PresentMode;
use crate::renderer::{RedrawStep, WindowRenderer};
use crate::swapchain::{SurfaceCapabilities, SurfaceSwapchain};

verus! {

/// Law: a window whose size has a zero dimension has its redraw skipped
/// outright — the begin step answers `Skip` and leaves the renderer, its
/// swapchain and its completion token untouched, so nothing reaches the
/// queue.
pub proof fn lemma_zero_area_redraw_skipped(
    renderer: WindowRenderer,
    caps: SurfaceCapabilities,
    window_size: Extent,
)
    requires
        renderer.is_active(),
        renderer.wf(),
        window_size.spec_is_zero_area(),
    ensures
        renderer.spec_begin_redraw(caps, window_size) == (renderer, BeginAction::Skip),
{
}

/// Law: a stale swapchain seen at acquisition is followed by exactly one
/// recreation before the next successful present. The stale frame itself
/// ends as `Recreated` without touching the chain; the following frame's
/// begin step rebuilds the chain exactly once, and neither that frame's
/// acquisition nor its successful present rebuilds it again.
pub proof fn lemma_stale_acquire_recreates_once(
    r0: WindowRenderer,
    now0: u64,
    caps1: SurfaceCapabilities,
    ws1: Extent,
    acq: AcquireResult,
    now1: u64,
    caps2: SurfaceCapabilities,
    ws2: Extent,
)
    requires
        r0.is_active(),
        r0.wf(),
        r0.gpu_state().sync.phase is AwaitingImage,
        r0.gpu_state().swapchain.generation < u64::MAX,
        !ws1.spec_is_zero_area(),
        acq is Ready,
    ensures
        ({
            let stale = r0.spec_on_image_ready(AcquireResult::OutOfDate, now0);
            let begun = stale.0.spec_begin_redraw(caps1, ws1);
            let acquired = begun.0.spec_on_image_ready(acq, now1);
            let presented = acquired.0.spec_finish_redraw(PresentResult::Completed, caps2, ws2);
            &&& stale.1 == RedrawStep::Finish(FrameOutcome::Recreated)
            &&& stale.0.gpu_state().swapchain == r0.gpu_state().swapchain
            &&& begun.1 == (BeginAction::Acquire { rebuilt: true })
            &&& begun.0.gpu_state().swapchain.generation == r0.gpu_state().swapchain.generation + 1
            &&& acquired.0.gpu_state().swapchain == begun.0.gpu_state().swapchain
            &&& presented.1 == FrameOutcome::Presented
            &&& presented.0.gpu_state().swapchain == begun.0.gpu_state().swapchain
        }),
{
}

/// Law: a stale swapchain seen at present time is followed by exactly one
/// recreation before the next successful present, and that recreation
/// happens within the failing frame itself: the chain is rebuilt at once,
/// the held completion token settles, and the next frame proceeds to a
/// successful present without rebuilding again.
pub proof fn lemma_stale_present_recreates_once(
    r0: WindowRenderer,
    caps0: SurfaceCapabilities,
    ws0: Extent,
    caps1: SurfaceCapabilities,
    ws1: Extent,
    acq: AcquireResult,
    now1: u64,
    caps2: SurfaceCapabilities,
    ws2: Extent,
)
    requires
        r0.is_active(),
        r0.wf(),
        r0.gpu_state().sync.phase is AwaitingPresent,
        r0.gpu_state().swapchain.generation < u64::MAX,
        !ws1.spec_is_zero_area(),
        acq is Ready,
    ensures
        ({
            let stale = r0.spec_finish_redraw(PresentResult::OutOfDate, caps0, ws0);
            let begun = stale.0.spec_begin_redraw(caps1, ws1);
            let acquired = begun.0.spec_on_image_ready(acq, now1);
            let presented = acquired.0.spec_finish_redraw(PresentResult::Completed, caps2, ws2);
            &&& stale.1 == FrameOutcome::Recreated
            &&& stale.0.gpu_state().swapchain.generation == r0.gpu_state().swapchain.generation + 1
            &&& stale.0.gpu_state().sync.token.spec_is_settled()
            &&& begun.1 == (BeginAction::Acquire { rebuilt: false })
            &&& begun.0.gpu_state().swapchain == stale.0.gpu_state().swapchain
            &&& acquired.0.gpu_state().swapchain == stale.0.gpu_state().swapchain
            &&& presented.1 == FrameOutcome::Presented
            &&& presented.0.gpu_state().swapchain == stale.0.gpu_state().swapchain
        }),
{
}

/// Law: a successful present replaces the held completion token with a
/// fresh, unsettled one whose identity is strictly greater than the old
/// token's. Token identities therefore grow along a window's successful
/// presents: frames are submitted and presented in the order their redraws
/// ran, never reordered.
pub proof fn lemma_present_replaces_token(
    r0: WindowRenderer,
    caps: SurfaceCapabilities,
    window_size: Extent,
)
    requires
        r0.is_active(),
        r0.wf(),
        r0.gpu_state().sync.phase is AwaitingPresent,
        r0.gpu_state().sync.next_token_id < u64::MAX,
    ensures
        ({
            let presented = r0.spec_finish_redraw(PresentResult::Completed, caps, window_size);
            &&& presented.1 == FrameOutcome::Presented
            &&& presented.0.gpu_state().sync.token != r0.gpu_state().sync.token
            &&& presented.0.gpu_state().sync.token.id > r0.gpu_state().sync.token.id
            &&& !presented.0.gpu_state().sync.token.spec_is_settled()
        }),
{
}

/// Law: a close request returns the terminate signal exactly when it
/// addresses the primary window; any other window's close request is
/// ignored. (That a dispatched close request changes no state at all — the
/// addressed window stays allocated — is part of `dispatch`'s contract.)
pub proof fn lemma_close_policy(c: RenderingCoordinator, window_id: u64)
    ensures
        c.spec_dispatch_action(window_id, WindowEvent::CloseRequested) == (
        if window_id == c.primary_window {
            EventAction::Terminate
        } else {
            EventAction::Ignore
        }),
        (c.spec_dispatch_action(window_id, WindowEvent::CloseRequested) is Terminate) <==> window_id
            == c.primary_window,
{
}

/// Law: suspension followed by resumption leaves the set of window
/// identities unchanged — same windows, same order — and every renderer
/// comes back active with its start timestamp, pointer position and clear
/// level exactly as they were.
pub proof fn lemma_suspend_resume_preserves_windows(
    c0: RenderingCoordinator,
    c1: RenderingCoordinator,
    c2: RenderingCoordinator,
    surfaces: Seq<SurfaceParams>,
)
    requires
        RenderingCoordinator::suspend_rel(c0, c1),
        RenderingCoordinator::resume_rel(c1, c2, surfaces),
    ensures
        c2.ids() =~= c0.ids(),
        c2.windows@.len() == c0.windows@.len(),
        forall|i: int|
            0 <= i < c0.windows@.len() ==> {
                let before = (#[trigger] c0.windows@[i]).renderer;
                let after = c2.windows@[i].renderer;
                &&& c2.windows@[i].window_id == c0.windows@[i].window_id
                &&& after.start_millis == before.start_millis
                &&& after.pointer == before.pointer
                &&& after.clear_level == before.clear_level
                &&& after.is_active()
            },
{
}

/// Law: with the start timestamp preserved, the animation clock never runs
/// backwards — a later clock reading yields a later or equal elapsed time in
/// the frame parameters.
pub proof fn lemma_clock_monotone(
    r: WindowRenderer,
    now0: u64,
    now1: u64,
    image0: u32,
    image1: u32,
)
    requires
        r.start_millis <= now0 <= now1,
    ensures
        r.spec_frame_params(now0, image0).elapsed_millis <= r.spec_frame_params(
            now1,
            image1,
        ).elapsed_millis,
{
}

/// Law: the pointer position handed to the pipeline lies inside the unit
/// square for every in-bounds input coordinate; each axis is the exact
/// fraction of the position over the window size.
pub proof fn lemma_pointer_normalization_in_unit(
    r: WindowRenderer,
    px: u64,
    py: u64,
    window_size: Extent,
)
    requires
        0 < window_size.width,
        0 < window_size.height,
        px <= window_size.width,
        py <= window_size.height,
    ensures
        r.spec_on_pointer_move(px, py, window_size).pointer.spec_in_unit(),
        r.spec_on_pointer_move(px, py, window_size).pointer.x.num == px,
        r.spec_on_pointer_move(px, py, window_size).pointer.x.den == window_size.width,
        r.spec_on_pointer_move(px, py, window_size).pointer.y.num == py,
        r.spec_on_pointer_move(px, py, window_size).pointer.y.den == window_size.height,
{
}

/// Law: building a swapchain and immediately rebuilding it against the same
/// capabilities and window size changes neither its image count, nor its
/// format, nor its present mode, nor its extent.
pub proof fn lemma_recreate_round_trip(
    caps: SurfaceCapabilities,
    window_size: Extent,
    vsync: bool,
    supported: Seq<PresentMode>,
)
    ensures
        ({
            let chain = SurfaceSwapchain::spec_create(caps, window_size, vsync, supported);
            let again = chain.spec_recreate(caps, window_size);
            &&& again.image_count == chain.image_count
            &&& again.format == chain.format
            &&& again.present_mode == chain.present_mode
            &&& again.extent == chain.extent
        }),
{
}

} // verus!

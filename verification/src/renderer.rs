//! One window's renderer: its swapchain and frame synchronizer, the
//! secondary multisample-resolve attachment, and the per-window animation
//! and input state that survives suspension.

use vstd::prelude::*;
use crate::extent::Extent;
use crate::frame::{
    AcquireAction, AcquireResult, BeginAction, FrameOutcome, FramePhase, FrameSynchronizer,
    PresentResult,
};
use crate::present::PresentMode;
use crate::swapchain::{SurfaceCapabilities, SurfaceSwapchain};

verus! {

/// Every draw replicates the static mesh this many times — an intentional
/// stress-test repeat, not a rendering requirement.
pub const INSTANCE_REPLICATION: u32 = 10;

/// A coordinate as the exact fraction `num / den` of a window dimension.
/// The device consumes it as a single normalized number; keeping numerator
/// and denominator separate keeps the value exact.
#[derive(Clone, Copy, PartialEq, Eq, Structural, Debug)]
pub struct AxisFraction {
    pub num: u64,
    pub den: u64,
}

impl AxisFraction {
    /// The fraction is a proper value inside `[0, 1]`.
    pub open spec fn spec_in_unit(self) -> bool {
        0 < self.den && self.num <= self.den
    }

    /// The fraction standing for zero.
    pub open spec fn spec_zero() -> AxisFraction {
        AxisFraction { num: 0, den: 1 }
    }
}

/// A pointer position normalized per axis against the window size.
#[derive(Clone, Copy, PartialEq, Eq, Structural, Debug)]
pub struct PointerPosition {
    pub x: AxisFraction,
    pub y: AxisFraction,
}

impl PointerPosition {
    /// Both axes lie inside `[0, 1]`.
    pub open spec fn spec_in_unit(self) -> bool {
        self.x.spec_in_unit() && self.y.spec_in_unit()
    }

    /// Where the pointer is taken to rest before any movement was seen.
    pub open spec fn spec_origin() -> PointerPosition {
        PointerPosition { x: AxisFraction::spec_zero(), y: AxisFraction::spec_zero() }
    }
}

/// The normalization rule: each axis of the pointer position is divided by
/// the same axis of the window size.
pub open spec fn spec_normalize_pointer(px: u64, py: u64, window_size: Extent) -> PointerPosition {
    PointerPosition {
        x: AxisFraction { num: px, den: window_size.width as u64 },
        y: AxisFraction { num: py, den: window_size.height as u64 },
    }
}

/// The device-bound state of one window: dropped wholesale on suspension,
/// rebuilt on resumption.
#[derive(Clone, Copy, PartialEq, Eq, Structural, Debug)]
pub struct GpuFrameState {
    /// The presentable image chain.
    pub swapchain: SurfaceSwapchain,
    /// The frame pacing state for this chain.
    pub sync: FrameSynchronizer,
    /// Size of the secondary attachment the multisampled frame is rendered
    /// into before being resolved into a presentable image.
    pub attachment_extent: Extent,
}

impl GpuFrameState {
    /// The attachment must always match the chain it resolves into.
    pub open spec fn wf(self) -> bool {
        &&& self.swapchain.wf()
        &&& self.sync.wf()
        &&& self.attachment_extent == self.swapchain.extent
    }

    /// Fresh device-bound state for one window.
    pub open spec fn spec_create(
        caps: SurfaceCapabilities,
        window_size: Extent,
        vsync: bool,
        supported: Seq<PresentMode>,
    ) -> GpuFrameState {
        let chain = SurfaceSwapchain::spec_create(caps, window_size, vsync, supported);
        GpuFrameState {
            swapchain: chain,
            sync: FrameSynchronizer::spec_new(),
            attachment_extent: chain.extent,
        }
    }

    pub fn create(
        caps: &SurfaceCapabilities,
        window_size: Extent,
        vsync: bool,
        supported: &Vec<PresentMode>,
    ) -> (r: GpuFrameState)
        requires
            caps.wf(),
        ensures
            r == GpuFrameState::spec_create(*caps, window_size, vsync, supported@),
            r.wf(),
    {
        let chain = SurfaceSwapchain::create(caps, window_size, vsync, supported);
        GpuFrameState {
            swapchain: chain,
            sync: FrameSynchronizer::new(),
            attachment_extent: chain.extent,
        }
    }
}

/// The per-frame parameters one submission carries.
#[derive(Clone, Copy, PartialEq, Eq, Structural, Debug)]
pub struct FrameParams {
    /// The presentable image this frame resolves into.
    pub image_index: u32,
    /// Milliseconds since the renderer's start timestamp; the animation
    /// clock handed to the pipeline.
    pub elapsed_millis: u64,
    /// The last pointer position, normalized per axis.
    pub pointer: PointerPosition,
    /// The window's grey clear level.
    pub clear_level: AxisFraction,
    /// How many times the mesh is drawn.
    pub instance_count: u32,
}

/// What the renderer asks of the harness once the acquisition report is in.
#[derive(Clone, Copy, PartialEq, Eq, Structural, Debug)]
pub enum RedrawStep {
    /// The frame is over with this outcome; nothing to submit.
    Finish(FrameOutcome),
    /// Record and submit one command sequence with these parameters, present
    /// the image, and report back.
    Submit(FrameParams),
}

/// One window's renderer. The window handle itself is borrowed by the
/// harness for the renderer's lifetime; the renderer keeps only state. The
/// clock, pointer and clear level survive deactivation so that reactivation
/// resumes the animation without a visible discontinuity.
#[derive(Clone, Copy, PartialEq, Eq, Structural, Debug)]
pub struct WindowRenderer {
    /// Monotonic clock reading at construction; never reset.
    pub start_millis: u64,
    /// Last pointer position, normalized against the window size current
    /// when it was seen.
    pub pointer: PointerPosition,
    /// Grey level this window clears to: its index over the window count.
    pub clear_level: AxisFraction,
    /// Whether the swapchain is built with vsync preference.
    pub vsync: bool,
    /// Device-bound state; `None` while suspended.
    pub gpu: Option<GpuFrameState>,
}

impl WindowRenderer {
    /// Active renderers own device-bound state; suspended ones own none.
    pub open spec fn is_active(self) -> bool {
        self.gpu is Some
    }

    pub open spec fn wf(self) -> bool {
        self.gpu matches Option::Some(g) ==> g.wf()
    }

    /// The device-bound state of an active renderer.
    pub open spec fn gpu_state(self) -> GpuFrameState
        recommends
            self.is_active(),
    {
        self.gpu->Some_0
    }

    /// A renderer is between frames when suspended or when its synchronizer
    /// is idle; events other than the redraw steps require this.
    pub open spec fn is_idle(self) -> bool {
        self.gpu matches Option::Some(g) ==> g.sync.phase is Idle
    }

    pub fn active(&self) -> (r: bool)
        ensures
            r == self.is_active(),
    {
        self.gpu.is_some()
    }

    /// A fresh renderer for the window at `window_index` of `window_count`,
    /// activated immediately.
    pub open spec fn spec_new(
        now_millis: u64,
        window_index: u64,
        window_count: u64,
        vsync: bool,
        caps: SurfaceCapabilities,
        window_size: Extent,
        supported: Seq<PresentMode>,
    ) -> WindowRenderer {
        WindowRenderer {
            start_millis: now_millis,
            pointer: PointerPosition::spec_origin(),
            clear_level: AxisFraction { num: window_index, den: window_count },
            vsync,
            gpu: Option::Some(GpuFrameState::spec_create(caps, window_size, vsync, supported)),
        }
    }

    pub fn new(
        now_millis: u64,
        window_index: u64,
        window_count: u64,
        vsync: bool,
        caps: &SurfaceCapabilities,
        window_size: Extent,
        supported: &Vec<PresentMode>,
    ) -> (r: WindowRenderer)
        requires
            caps.wf(),
            window_index < window_count,
        ensures
            r == WindowRenderer::spec_new(
                now_millis,
                window_index,
                window_count,
                vsync,
                *caps,
                window_size,
                supported@,
            ),
            r.wf(),
            r.is_active(),
            r.clear_level.spec_in_unit(),
    {
        WindowRenderer {
            start_millis: now_millis,
            pointer: PointerPosition { x: AxisFraction { num: 0, den: 1 }, y: AxisFraction { num: 0, den: 1 } },
            clear_level: AxisFraction { num: window_index, den: window_count },
            vsync,
            gpu: Option::Some(GpuFrameState::create(caps, window_size, vsync, supported)),
        }
    }

    /// The renderer after deactivation: all device-bound state released, the
    /// clock, pointer and clear level retained.
    pub open spec fn spec_deactivate(self) -> WindowRenderer {
        WindowRenderer { gpu: Option::None, ..self }
    }

    /// Releases the swapchain, its images and the secondary attachment. The
    /// harness must wait out the held completion token before destroying the
    /// device objects this state stood for.
    pub fn deactivate(&mut self)
        ensures
            *final(self) == old(self).spec_deactivate(),
            !final(self).is_active(),
    {
        self.gpu = Option::None;
    }

    /// The renderer after reactivation against the same window: fresh
    /// device-bound state, everything else untouched.
    pub open spec fn spec_activate(
        self,
        caps: SurfaceCapabilities,
        window_size: Extent,
        supported: Seq<PresentMode>,
    ) -> WindowRenderer {
        WindowRenderer {
            gpu: Option::Some(GpuFrameState::spec_create(caps, window_size, self.vsync, supported)),
            ..self
        }
    }

    /// Rebuilds device-bound state from the same window's surface, resuming
    /// the animation where it paused.
    pub fn activate(
        &mut self,
        caps: &SurfaceCapabilities,
        window_size: Extent,
        supported: &Vec<PresentMode>,
    )
        requires
            !old(self).is_active(),
            caps.wf(),
        ensures
            *final(self) == old(self).spec_activate(*caps, window_size, supported@),
            final(self).wf(),
            final(self).is_active(),
    {
        self.gpu = Option::Some(GpuFrameState::create(caps, window_size, self.vsync, supported));
    }

    /// The renderer after a pointer movement: the position normalized
    /// against the current window size, nothing else touched. The update is
    /// unconditional and has no device side effect.
    pub open spec fn spec_on_pointer_move(self, px: u64, py: u64, window_size: Extent) -> WindowRenderer {
        WindowRenderer { pointer: spec_normalize_pointer(px, py, window_size), ..self }
    }

    pub fn on_pointer_move(&mut self, px: u64, py: u64, window_size: Extent)
        ensures
            *final(self) == old(self).spec_on_pointer_move(px, py, window_size),
            final(self).pointer == spec_normalize_pointer(px, py, window_size),
    {
        self.pointer = PointerPosition {
            x: AxisFraction { num: px, den: window_size.width as u64 },
            y: AxisFraction { num: py, den: window_size.height as u64 },
        };
    }

    /// The renderer after a resize notification: the chain rebuilt against
    /// the new size, the attachment resized with it, the synchronizer left
    /// alone.
    pub open spec fn spec_on_resize(self, caps: SurfaceCapabilities, window_size: Extent) -> WindowRenderer {
        match self.gpu {
            Option::Some(g) => {
                let chain = g.swapchain.spec_recreate(caps, window_size);
                WindowRenderer {
                    gpu: Option::Some(
                        GpuFrameState { swapchain: chain, attachment_extent: chain.extent, ..g },
                    ),
                    ..self
                }
            },
            Option::None => self,
        }
    }

    /// Rebuilds the swapchain synchronously on a resize notification.
    pub fn on_resize(&mut self, caps: &SurfaceCapabilities, window_size: Extent)
        requires
            old(self).is_active(),
            old(self).wf(),
            old(self).gpu_state().swapchain.generation < u64::MAX,
        ensures
            *final(self) == old(self).spec_on_resize(*caps, window_size),
            final(self).wf(),
            final(self).is_active(),
    {
        match &mut self.gpu {
            Option::Some(g) => {
                g.swapchain.recreate(caps, window_size);
                g.attachment_extent = g.swapchain.extent;
            },
            Option::None => {
                proof {
                    assert(false);
                }
            },
        }
    }

    /// The renderer and action of `begin_redraw`.
    pub open spec fn spec_begin_redraw(
        self,
        caps: SurfaceCapabilities,
        window_size: Extent,
    ) -> (WindowRenderer, BeginAction) {
        match self.gpu {
            Option::Some(g) => {
                let (sync, chain, a) = g.sync.spec_begin_frame(g.swapchain, caps, window_size);
                (
                    WindowRenderer {
                        gpu: Option::Some(
                            GpuFrameState { swapchain: chain, sync, attachment_extent: chain.extent },
                        ),
                        ..self
                    },
                    a,
                )
            },
            Option::None => (self, BeginAction::Skip),
        }
    }

    /// Starts one redraw; see the frame protocol. On a zero-area window the
    /// result is `Skip` and nothing changes.
    pub fn begin_redraw(&mut self, caps: &SurfaceCapabilities, window_size: Extent) -> (a: BeginAction)
        requires
            old(self).is_active(),
            old(self).wf(),
            old(self).is_idle(),
            old(self).gpu_state().swapchain.generation < u64::MAX,
        ensures
            (*final(self), a) == old(self).spec_begin_redraw(*caps, window_size),
            final(self).wf(),
            final(self).is_active(),
    {
        match &mut self.gpu {
            Option::Some(g) => {
                let a = g.sync.begin_frame(&mut g.swapchain, caps, window_size);
                g.attachment_extent = g.swapchain.extent;
                a
            },
            Option::None => {
                proof {
                    assert(false);
                }
                BeginAction::Skip
            },
        }
    }

    /// The frame parameters a submission carries, given the clock reading
    /// `now_millis` and the acquired image.
    pub open spec fn spec_frame_params(self, now_millis: u64, image_index: u32) -> FrameParams {
        FrameParams {
            image_index,
            elapsed_millis: (now_millis - self.start_millis) as u64,
            pointer: self.pointer,
            clear_level: self.clear_level,
            instance_count: INSTANCE_REPLICATION,
        }
    }

    /// The renderer and step of `on_image_ready`.
    pub open spec fn spec_on_image_ready(
        self,
        r: AcquireResult,
        now_millis: u64,
    ) -> (WindowRenderer, RedrawStep) {
        match self.gpu {
            Option::Some(g) => {
                let (sync, a) = g.sync.spec_on_image_ready(r);
                let renderer = WindowRenderer { gpu: Option::Some(GpuFrameState { sync, ..g }), ..self };
                match a {
                    AcquireAction::Finish(o) => (renderer, RedrawStep::Finish(o)),
                    AcquireAction::Submit { image_index } => (
                        renderer,
                        RedrawStep::Submit(self.spec_frame_params(now_millis, image_index)),
                    ),
                }
            },
            Option::None => (self, RedrawStep::Finish(FrameOutcome::Skipped)),
        }
    }

    /// Takes the acquisition report and either ends the frame or hands back
    /// the parameters of the command sequence to submit: the elapsed
    /// animation clock, the normalized pointer, the clear level, and the
    /// fixed instance replication.
    pub fn on_image_ready(&mut self, r: AcquireResult, now_millis: u64) -> (step: RedrawStep)
        requires
            old(self).is_active(),
            old(self).wf(),
            old(self).gpu_state().sync.phase is AwaitingImage,
            old(self).start_millis <= now_millis,
            r matches AcquireResult::Ready { image_index, .. }
                ==> image_index < old(self).gpu_state().swapchain.image_count,
        ensures
            (*final(self), step) == old(self).spec_on_image_ready(r, now_millis),
            final(self).wf(),
            final(self).is_active(),
            step matches RedrawStep::Submit(p) ==> {
                &&& p.elapsed_millis == now_millis - old(self).start_millis
                &&& p.pointer == old(self).pointer
                &&& p.clear_level == old(self).clear_level
                &&& p.instance_count == INSTANCE_REPLICATION
                &&& p.image_index < old(self).gpu_state().swapchain.image_count
            },
    {
        let pointer = self.pointer;
        let clear_level = self.clear_level;
        let start_millis = self.start_millis;
        match &mut self.gpu {
            Option::Some(g) => {
                let a = g.sync.on_image_ready(&g.swapchain, r);
                match a {
                    AcquireAction::Finish(o) => RedrawStep::Finish(o),
                    AcquireAction::Submit { image_index } => RedrawStep::Submit(
                        FrameParams {
                            image_index,
                            elapsed_millis: now_millis - start_millis,
                            pointer,
                            clear_level,
                            instance_count: INSTANCE_REPLICATION,
                        },
                    ),
                }
            },
            Option::None => {
                proof {
                    assert(false);
                }
                RedrawStep::Finish(FrameOutcome::Skipped)
            },
        }
    }

    /// The renderer and outcome of `finish_redraw`.
    pub open spec fn spec_finish_redraw(
        self,
        r: PresentResult,
        caps: SurfaceCapabilities,
        window_size: Extent,
    ) -> (WindowRenderer, FrameOutcome) {
        match self.gpu {
            Option::Some(g) => {
                let (sync, chain, o) = g.sync.spec_on_present_result(g.swapchain, caps, window_size, r);
                (
                    WindowRenderer {
                        gpu: Option::Some(
                            GpuFrameState { swapchain: chain, sync, attachment_extent: chain.extent },
                        ),
                        ..self
                    },
                    o,
                )
            },
            Option::None => (self, FrameOutcome::Skipped),
        }
    }

    /// Takes the submit/present report and ends the frame. On success the
    /// held completion token is replaced by the new submission's; on
    /// staleness the chain is rebuilt at once and the token settles.
    pub fn finish_redraw(
        &mut self,
        r: PresentResult,
        caps: &SurfaceCapabilities,
        window_size: Extent,
    ) -> (o: FrameOutcome)
        requires
            old(self).is_active(),
            old(self).wf(),
            old(self).gpu_state().sync.phase is AwaitingPresent,
            old(self).gpu_state().sync.next_token_id < u64::MAX,
            old(self).gpu_state().swapchain.generation < u64::MAX,
        ensures
            (*final(self), o) == old(self).spec_finish_redraw(r, *caps, window_size),
            final(self).wf(),
            final(self).is_active(),
            final(self).is_idle(),
    {
        match &mut self.gpu {
            Option::Some(g) => {
                let o = g.sync.on_present_result(&mut g.swapchain, caps, window_size, r);
                g.attachment_extent = g.swapchain.extent;
                o
            },
            Option::None => {
                proof {
                    assert(false);
                }
                FrameOutcome::Skipped
            },
        }
    }
}

} // verus!

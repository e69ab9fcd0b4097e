//! The coordinator: owns every window's renderer, routes window-system
//! events to the right one, applies the shutdown-on-primary-close policy,
//! and implements suspension (drop all device-bound state) and resumption
//! (rebuild it all, atomically per window).

use vstd::prelude::*;
use crate::extent::Extent;
use crate::frame::{AcquireResult, BeginAction, FrameOutcome, PresentResult};
use crate::present::PresentMode;
use crate::renderer::{RedrawStep, WindowRenderer};
use crate::swapchain::SurfaceCapabilities;

verus! {

/// One window's surface, as the harness reports it when renderers are
/// built: the surface's capabilities, the window's pixel size, and the
/// present modes the surface supports.
pub struct SurfaceParams {
    pub capabilities: SurfaceCapabilities,
    pub window_size: Extent,
    pub supported_modes: Vec<PresentMode>,
}

/// One owned window: its identity and its renderer.
#[derive(Clone, Copy, PartialEq, Eq, Structural, Debug)]
pub struct WindowEntry {
    pub window_id: u64,
    pub renderer: WindowRenderer,
}

/// Where the coordinator stands in its lifecycle.
#[derive(Clone, Copy, PartialEq, Eq, Structural, Debug)]
pub enum CoordinatorPhase {
    /// No windows exist yet; the first platform resumption starts rendering.
    NotStarted,
    /// Every owned window has an active renderer.
    Active,
    /// Every renderer's device-bound state has been dropped; identities and
    /// animation state are retained.
    Suspended,
}

/// A window-system notification, routed by window identity.
#[derive(Clone, Copy, PartialEq, Eq, Structural, Debug)]
pub enum WindowEvent {
    /// The user asked to close the window.
    CloseRequested,
    /// The window's pixel size changed.
    Resized,
    /// The window should be redrawn.
    RedrawRequested,
    /// The pointer moved to this position inside the window, in pixels.
    PointerMoved { x: u64, y: u64 },
}

/// What the harness must do about a dispatched event.
#[derive(Clone, Copy, PartialEq, Eq, Structural, Debug)]
pub enum EventAction {
    /// The primary window was asked to close: terminate the process.
    Terminate,
    /// Nothing to do; closing a non-primary window has no semantics here.
    Ignore,
    /// Query the window's surface and run the renderer's resize step.
    RecreateSurface,
    /// Run the redraw protocol for this window.
    Redraw,
    /// The event was consumed by the renderer's own state.
    Handled,
}

/// Owns the set of window renderers, keyed by window identity, and the
/// identity of the one primary window whose close request terminates the
/// process.
pub struct RenderingCoordinator {
    pub phase: CoordinatorPhase,
    pub primary_window: u64,
    pub windows: Vec<WindowEntry>,
}

impl RenderingCoordinator {
    /// The owned window identities, in insertion order.
    pub open spec fn ids(self) -> Seq<u64> {
        self.windows@.map_values(|e: WindowEntry| e.window_id)
    }

    pub open spec fn has_window(self, window_id: u64) -> bool {
        exists|i: int|
            0 <= i < self.windows@.len() && self.windows@[i].window_id == window_id
    }

    /// No two entries share an identity.
    pub open spec fn unique_ids(self) -> bool {
        forall|i: int, j: int|
            0 <= i < j < self.windows@.len()
                ==> self.windows@[i].window_id != self.windows@[j].window_id
    }

    pub open spec fn wf(self) -> bool {
        &&& self.unique_ids()
        &&& forall|i: int| 0 <= i < self.windows@.len() ==> (#[trigger] self.windows@[i]).renderer.wf()
        &&& (self.phase is NotStarted ==> self.windows@.len() == 0)
        &&& (self.phase is Active ==> forall|i: int|
            0 <= i < self.windows@.len() ==> (#[trigger] self.windows@[i]).renderer.is_active())
        &&& (self.phase is Suspended ==> forall|i: int|
            0 <= i < self.windows@.len() ==> !(#[trigger] self.windows@[i]).renderer.is_active())
    }

    /// A coordinator that has not started rendering yet.
    pub fn new() -> (r: RenderingCoordinator)
        ensures
            r.phase is NotStarted,
            r.primary_window == 0,
            r.windows@ =~= Seq::<WindowEntry>::empty(),
            r.wf(),
    {
        RenderingCoordinator { phase: CoordinatorPhase::NotStarted, primary_window: 0, windows: Vec::new() }
    }

    /// Looks an identity up; `Some(i)` points at an entry carrying it.
    fn find_index(&self, window_id: u64) -> (r: Option<usize>)
        ensures
            match r {
                Option::Some(i) => i < self.windows@.len() && self.windows@[i as int].window_id
                    == window_id,
                Option::None => !self.has_window(window_id),
            },
    {
        let mut i: usize = 0;
        while i < self.windows.len()
            invariant
                0 <= i <= self.windows@.len(),
                forall|k: int| 0 <= k < i ==> self.windows@[k].window_id != window_id,
            decreases self.windows@.len() - i,
        {
            if self.windows[i].window_id == window_id {
                return Option::Some(i);
            }
            i = i + 1;
        }
        Option::None
    }

    pub fn contains_window(&self, window_id: u64) -> (r: bool)
        ensures
            r == self.has_window(window_id),
    {
        self.find_index(window_id).is_some()
    }

    /// Builds the renderer set and goes active: one renderer per window, the
    /// window at position `i` clearing to grey level `i / count`.
    pub fn start(
        &mut self,
        primary_id: u64,
        window_ids: &Vec<u64>,
        surfaces: &Vec<SurfaceParams>,
        now_millis: u64,
        vsync: bool,
    )
        requires
            old(self).phase is NotStarted,
            old(self).wf(),
            window_ids@.len() > 0,
            window_ids@.len() == surfaces@.len(),
            window_ids@.contains(primary_id),
            forall|i: int, j: int|
                0 <= i < j < window_ids@.len() ==> window_ids@[i] != window_ids@[j],
            forall|i: int|
                0 <= i < surfaces@.len() ==> (#[trigger] surfaces@[i]).capabilities.wf(),
        ensures
            final(self).phase is Active,
            final(self).primary_window == primary_id,
            final(self).windows@.len() == window_ids@.len(),
            forall|i: int|
                0 <= i < window_ids@.len() ==> (#[trigger] final(self).windows@[i]).window_id
                    == window_ids@[i],
            forall|i: int|
                0 <= i < window_ids@.len() ==> (#[trigger] final(self).windows@[i]).renderer
                    == WindowRenderer::spec_new(
                    now_millis,
                    i as u64,
                    window_ids@.len() as u64,
                    vsync,
                    surfaces@[i].capabilities,
                    surfaces@[i].window_size,
                    surfaces@[i].supported_modes@,
                ),
            final(self).has_window(primary_id),
            final(self).wf(),
    {
        self.primary_window = primary_id;
        let count = window_ids.len();
        let mut entries: Vec<WindowEntry> = Vec::new();
        let mut i: usize = 0;
        while i < count
            invariant
                count == window_ids@.len(),
                count == surfaces@.len(),
                0 <= i <= count,
                entries@.len() == i,
                forall|i0: int, j0: int|
                    0 <= i0 < j0 < window_ids@.len() ==> window_ids@[i0] != window_ids@[j0],
                forall|k: int|
                    0 <= k < i ==> (#[trigger] entries@[k]).window_id == window_ids@[k],
                forall|k: int|
                    0 <= k < surfaces@.len() ==> (#[trigger] surfaces@[k]).capabilities.wf(),
                forall|k: int|
                    0 <= k < i ==> (#[trigger] entries@[k]).renderer == WindowRenderer::spec_new(
                        now_millis,
                        k as u64,
                        count as u64,
                        vsync,
                        surfaces@[k].capabilities,
                        surfaces@[k].window_size,
                        surfaces@[k].supported_modes@,
                    ),
                forall|k: int|
                    0 <= k < i ==> (#[trigger] entries@[k]).renderer.wf()
                        && entries@[k].renderer.is_active(),
            decreases count - i,
        {
            let s = &surfaces[i];
            let renderer = WindowRenderer::new(
                now_millis,
                i as u64,
                count as u64,
                vsync,
                &s.capabilities,
                s.window_size,
                &s.supported_modes,
            );
            entries.push(WindowEntry { window_id: window_ids[i], renderer });
            i = i + 1;
        }
        self.windows = entries;
        self.phase = CoordinatorPhase::Active;
        proof {
            let k = choose|k: int| 0 <= k < window_ids@.len() && window_ids@[k] == primary_id;
            assert(self.windows@[k].window_id == primary_id);
        }
    }

    /// Relates a coordinator to itself after suspension: every renderer
    /// deactivated, identities and order untouched.
    pub open spec fn suspend_rel(pre: RenderingCoordinator, post: RenderingCoordinator) -> bool {
        &&& post.phase is Suspended
        &&& post.primary_window == pre.primary_window
        &&& post.windows@.len() == pre.windows@.len()
        &&& forall|i: int|
            0 <= i < pre.windows@.len() ==> (#[trigger] post.windows@[i]) == (WindowEntry {
                window_id: pre.windows@[i].window_id,
                renderer: pre.windows@[i].renderer.spec_deactivate(),
            })
    }

    /// Deactivates every renderer: used when the host platform reclaims the
    /// device context. The harness must wait out each window's completion
    /// token before destroying its device objects.
    pub fn suspend(&mut self)
        requires
            old(self).phase is Active,
            old(self).wf(),
        ensures
            RenderingCoordinator::suspend_rel(*old(self), *final(self)),
            final(self).wf(),
    {
        let count = self.windows.len();
        let mut entries: Vec<WindowEntry> = Vec::new();
        let mut i: usize = 0;
        while i < count
            invariant
                count == self.windows@.len(),
                0 <= i <= count,
                entries@.len() == i,
                self.windows@ == old(self).windows@,
                self.primary_window == old(self).primary_window,
                self.phase == old(self).phase,
                forall|k: int|
                    0 <= k < i ==> (#[trigger] entries@[k]) == (WindowEntry {
                        window_id: self.windows@[k].window_id,
                        renderer: self.windows@[k].renderer.spec_deactivate(),
                    }),
            decreases count - i,
        {
            let e = self.windows[i];
            let mut renderer = e.renderer;
            renderer.deactivate();
            entries.push(WindowEntry { window_id: e.window_id, renderer });
            i = i + 1;
        }
        self.windows = entries;
        self.phase = CoordinatorPhase::Suspended;
    }

    /// Relates a suspended coordinator to itself after resumption against
    /// the given per-window surfaces: every renderer reactivated in place,
    /// identities, order and animation state untouched.
    pub open spec fn resume_rel(
        pre: RenderingCoordinator,
        post: RenderingCoordinator,
        surfaces: Seq<SurfaceParams>,
    ) -> bool {
        &&& post.phase is Active
        &&& post.primary_window == pre.primary_window
        &&& post.windows@.len() == pre.windows@.len()
        &&& forall|i: int|
            0 <= i < pre.windows@.len() ==> (#[trigger] post.windows@[i]) == (WindowEntry {
                window_id: pre.windows@[i].window_id,
                renderer: pre.windows@[i].renderer.spec_activate(
                    surfaces[i].capabilities,
                    surfaces[i].window_size,
                    surfaces[i].supported_modes@,
                ),
            })
    }

    /// Reactivates every renderer from its retained window, in order. The
    /// rebuild is atomic per window: the harness aborts the process on the
    /// first window whose device-side reconstruction fails, so a coordinator
    /// that returns from this call has every window active.
    pub fn resume(&mut self, surfaces: &Vec<SurfaceParams>)
        requires
            old(self).phase is Suspended,
            old(self).wf(),
            surfaces@.len() == old(self).windows@.len(),
            forall|i: int|
                0 <= i < surfaces@.len() ==> (#[trigger] surfaces@[i]).capabilities.wf(),
        ensures
            RenderingCoordinator::resume_rel(*old(self), *final(self), surfaces@),
            final(self).wf(),
    {
        let count = self.windows.len();
        let mut entries: Vec<WindowEntry> = Vec::new();
        let mut i: usize = 0;
        while i < count
            invariant
                count == self.windows@.len(),
                count == surfaces@.len(),
                0 <= i <= count,
                entries@.len() == i,
                self.windows@ == old(self).windows@,
                self.primary_window == old(self).primary_window,
                self.phase == old(self).phase,
                old(self).wf(),
                self.phase is Suspended,
                forall|k: int|
                    0 <= k < count ==> (#[trigger] surfaces@[k]).capabilities.wf(),
                forall|k: int|
                    0 <= k < i ==> (#[trigger] entries@[k]) == (WindowEntry {
                        window_id: self.windows@[k].window_id,
                        renderer: self.windows@[k].renderer.spec_activate(
                            surfaces@[k].capabilities,
                            surfaces@[k].window_size,
                            surfaces@[k].supported_modes@,
                        ),
                    }),
                forall|k: int|
                    0 <= k < i ==> (#[trigger] entries@[k]).renderer.wf()
                        && entries@[k].renderer.is_active(),
            decreases count - i,
        {
            let e = self.windows[i];
            let s = &surfaces[i];
            let mut renderer = e.renderer;
            proof {
                assert(self.windows@[i as int].renderer.wf());
                assert(!self.windows@[i as int].renderer.is_active());
            }
            renderer.activate(&s.capabilities, s.window_size, &s.supported_modes);
            entries.push(WindowEntry { window_id: e.window_id, renderer });
            i = i + 1;
        }
        self.windows = entries;
        self.phase = CoordinatorPhase::Active;
    }

    /// The routing decision for one event: closing the primary window
    /// terminates, closing any other window is ignored, a resize calls for a
    /// surface query and rebuild, a redraw request calls for the redraw
    /// protocol, and a pointer move is absorbed into the renderer.
    pub open spec fn spec_dispatch_action(self, window_id: u64, event: WindowEvent) -> EventAction {
        match event {
            WindowEvent::CloseRequested => if window_id == self.primary_window {
                EventAction::Terminate
            } else {
                EventAction::Ignore
            },
            WindowEvent::Resized => EventAction::RecreateSurface,
            WindowEvent::RedrawRequested => EventAction::Redraw,
            WindowEvent::PointerMoved { .. } => EventAction::Handled,
        }
    }

    /// Routes one event. Only a pointer move changes any state, and it
    /// changes exactly the addressed window's renderer; in particular a
    /// close request on a non-primary window leaves that window allocated.
    /// `window_size` is the addressed window's current pixel size, used to
    /// normalize pointer positions.
    pub fn dispatch(&mut self, window_id: u64, event: WindowEvent, window_size: Extent) -> (a:
        EventAction)
        requires
            old(self).wf(),
            !(event is CloseRequested) ==> old(self).phase is Active && old(self).has_window(
                window_id,
            ),
        ensures
            a == old(self).spec_dispatch_action(window_id, event),
            final(self).phase == old(self).phase,
            final(self).primary_window == old(self).primary_window,
            final(self).windows@.len() == old(self).windows@.len(),
            forall|i: int|
                0 <= i < old(self).windows@.len() ==> (#[trigger] final(self).windows@[i]).window_id
                    == old(self).windows@[i].window_id,
            !(event is PointerMoved) ==> final(self).windows@ == old(self).windows@,
            forall|i: int|
                0 <= i < old(self).windows@.len() && old(self).windows@[i].window_id != window_id
                    ==> (#[trigger] final(self).windows@[i]) == old(self).windows@[i],
            forall|i: int|
                (0 <= i < old(self).windows@.len() && old(self).windows@[i].window_id == window_id)
                    ==> (event matches WindowEvent::PointerMoved { x, y } ==> (
                #[trigger] final(self).windows@[i]).renderer == old(
                    self,
                ).windows@[i].renderer.spec_on_pointer_move(x, y, window_size)),
            final(self).wf(),
    {
        match event {
            WindowEvent::CloseRequested => {
                if window_id == self.primary_window {
                    EventAction::Terminate
                } else {
                    EventAction::Ignore
                }
            },
            WindowEvent::Resized => EventAction::RecreateSurface,
            WindowEvent::RedrawRequested => EventAction::Redraw,
            WindowEvent::PointerMoved { x, y } => {
                let idx_opt = self.find_index(window_id);
                match idx_opt {
                    Option::Some(idx) => {
                        let mut e = self.windows[idx];
                        e.renderer.on_pointer_move(x, y, window_size);
                        self.windows[idx] = e;
                        EventAction::Handled
                    },
                    Option::None => {
                        proof {
                            assert(false);
                        }
                        EventAction::Handled
                    },
                }
            },
        }
    }

    /// Rebuilds one window's swapchain after a resize notification, leaving
    /// its synchronization state alone.
    pub fn resize_window(&mut self, window_id: u64, caps: &SurfaceCapabilities, window_size: Extent)
        requires
            old(self).wf(),
            old(self).phase is Active,
            old(self).has_window(window_id),
            forall|i: int|
                0 <= i < old(self).windows@.len() && (#[trigger] old(self).windows@[i]).window_id
                    == window_id ==> old(
                    self,
                ).windows@[i].renderer.gpu_state().swapchain.generation < u64::MAX,
        ensures
            final(self).phase == old(self).phase,
            final(self).primary_window == old(self).primary_window,
            final(self).windows@.len() == old(self).windows@.len(),
            forall|i: int|
                0 <= i < old(self).windows@.len() && old(self).windows@[i].window_id != window_id
                    ==> (#[trigger] final(self).windows@[i]) == old(self).windows@[i],
            forall|i: int|
                0 <= i < old(self).windows@.len() && (#[trigger] old(self).windows@[i]).window_id
                    == window_id ==> final(self).windows@[i] == (WindowEntry {
                    window_id,
                    renderer: old(self).windows@[i].renderer.spec_on_resize(*caps, window_size),
                }),
            final(self).wf(),
    {
        let idx_opt = self.find_index(window_id);
        match idx_opt {
            Option::Some(idx) => {
                let mut e = self.windows[idx];
                e.renderer.on_resize(caps, window_size);
                self.windows[idx] = e;
            },
            Option::None => {
                proof {
                    assert(false);
                }
            },
        }
    }

    /// Starts the redraw protocol for one window; see the frame module for
    /// the protocol the returned action continues.
    pub fn begin_redraw_window(
        &mut self,
        window_id: u64,
        caps: &SurfaceCapabilities,
        window_size: Extent,
    ) -> (a: BeginAction)
        requires
            old(self).wf(),
            old(self).phase is Active,
            old(self).has_window(window_id),
            forall|i: int|
                0 <= i < old(self).windows@.len() && (#[trigger] old(self).windows@[i]).window_id
                    == window_id ==> old(self).windows@[i].renderer.is_idle() && old(
                    self,
                ).windows@[i].renderer.gpu_state().swapchain.generation < u64::MAX,
        ensures
            final(self).phase == old(self).phase,
            final(self).primary_window == old(self).primary_window,
            final(self).windows@.len() == old(self).windows@.len(),
            forall|i: int|
                0 <= i < old(self).windows@.len() && old(self).windows@[i].window_id != window_id
                    ==> (#[trigger] final(self).windows@[i]) == old(self).windows@[i],
            forall|i: int|
                0 <= i < old(self).windows@.len() && (#[trigger] old(self).windows@[i]).window_id
                    == window_id ==> final(self).windows@[i].window_id == window_id && (
                final(self).windows@[i].renderer,
                a,
                ) == old(self).windows@[i].renderer.spec_begin_redraw(*caps, window_size),
            final(self).wf(),
    {
        let idx_opt = self.find_index(window_id);
        match idx_opt {
            Option::Some(idx) => {
                let mut e = self.windows[idx];
                let a = e.renderer.begin_redraw(caps, window_size);
                self.windows[idx] = e;
                a
            },
            Option::None => {
                proof {
                    assert(false);
                }
                BeginAction::Skip
            },
        }
    }

    /// Hands one window's acquisition report to its renderer.
    pub fn window_image_ready(&mut self, window_id: u64, r: AcquireResult, now_millis: u64) -> (step:
        RedrawStep)
        requires
            old(self).wf(),
            old(self).phase is Active,
            old(self).has_window(window_id),
            forall|i: int|
                0 <= i < old(self).windows@.len() && (#[trigger] old(self).windows@[i]).window_id
                    == window_id ==> {
                    let renderer = old(self).windows@[i].renderer;
                    &&& renderer.gpu_state().sync.phase is AwaitingImage
                    &&& renderer.start_millis <= now_millis
                    &&& (r matches AcquireResult::Ready { image_index, .. } ==> image_index
                        < renderer.gpu_state().swapchain.image_count)
                },
        ensures
            final(self).phase == old(self).phase,
            final(self).primary_window == old(self).primary_window,
            final(self).windows@.len() == old(self).windows@.len(),
            forall|i: int|
                0 <= i < old(self).windows@.len() && old(self).windows@[i].window_id != window_id
                    ==> (#[trigger] final(self).windows@[i]) == old(self).windows@[i],
            forall|i: int|
                0 <= i < old(self).windows@.len() && (#[trigger] old(self).windows@[i]).window_id
                    == window_id ==> final(self).windows@[i].window_id == window_id && (
                final(self).windows@[i].renderer,
                step,
                ) == old(self).windows@[i].renderer.spec_on_image_ready(r, now_millis),
            final(self).wf(),
    {
        let idx_opt = self.find_index(window_id);
        match idx_opt {
            Option::Some(idx) => {
                let mut e = self.windows[idx];
                let step = e.renderer.on_image_ready(r, now_millis);
                self.windows[idx] = e;
                step
            },
            Option::None => {
                proof {
                    assert(false);
                }
                RedrawStep::Finish(FrameOutcome::Skipped)
            },
        }
    }

    /// Hands one window's submit/present report to its renderer and ends the
    /// frame.
    pub fn finish_redraw_window(
        &mut self,
        window_id: u64,
        r: PresentResult,
        caps: &SurfaceCapabilities,
        window_size: Extent,
    ) -> (o: FrameOutcome)
        requires
            old(self).wf(),
            old(self).phase is Active,
            old(self).has_window(window_id),
            forall|i: int|
                0 <= i < old(self).windows@.len() && (#[trigger] old(self).windows@[i]).window_id
                    == window_id ==> {
                    let renderer = old(self).windows@[i].renderer;
                    &&& renderer.gpu_state().sync.phase is AwaitingPresent
                    &&& renderer.gpu_state().sync.next_token_id < u64::MAX
                    &&& renderer.gpu_state().swapchain.generation < u64::MAX
                },
        ensures
            final(self).phase == old(self).phase,
            final(self).primary_window == old(self).primary_window,
            final(self).windows@.len() == old(self).windows@.len(),
            forall|i: int|
                0 <= i < old(self).windows@.len() && old(self).windows@[i].window_id != window_id
                    ==> (#[trigger] final(self).windows@[i]) == old(self).windows@[i],
            forall|i: int|
                0 <= i < old(self).windows@.len() && (#[trigger] old(self).windows@[i]).window_id
                    == window_id ==> final(self).windows@[i].window_id == window_id && (
                final(self).windows@[i].renderer,
                o,
                ) == old(self).windows@[i].renderer.spec_finish_redraw(r, *caps, window_size),
            final(self).wf(),
    {
        let idx_opt = self.find_index(window_id);
        match idx_opt {
            Option::Some(idx) => {
                let mut e = self.windows[idx];
                let o = e.renderer.finish_redraw(r, caps, window_size);
                self.windows[idx] = e;
                o
            },
            Option::None => {
                proof {
                    assert(false);
                }
                FrameOutcome::Skipped
            },
        }
    }

    /// The identities of every window the harness should ask to schedule a
    /// redraw; nothing is rendered synchronously.
    pub fn request_redraw(&self) -> (r: Vec<u64>)
        ensures
            r@ =~= self.ids(),
    {
        let mut r: Vec<u64> = Vec::new();
        let mut i: usize = 0;
        while i < self.windows.len()
            invariant
                0 <= i <= self.windows@.len(),
                r@.len() == i,
                forall|k: int| 0 <= k < i ==> r@[k] == self.windows@[k].window_id,
            decreases self.windows@.len() - i,
        {
            r.push(self.windows[i].window_id);
            i = i + 1;
        }
        r
    }
}

} // verus!

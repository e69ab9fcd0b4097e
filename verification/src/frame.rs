//! Frame pacing for one window: the rolling completion token, the per-frame
//! acquire/submit/present protocol, and recovery from a stale swapchain.
//!
//! The device itself is driven by the host harness. Each step function here
//! consumes what the device reported and returns the next action the harness
//! must take, so that the full protocol of one redraw is:
//!
//! 1. `begin_frame` — housekeeping done, window size known: either skip the
//!    frame or (after rebuilding a swapchain flagged stale last frame) ask
//!    for the next presentable image;
//! 2. `on_image_ready` — the acquire result is in: either report the chain
//!    stale or ask for the command submission against the acquired image;
//! 3. `on_present_result` — the submit/present result is in: hold the new
//!    completion token, or rebuild the stale chain at once and settle the
//!    token, and report the frame's outcome.

use vstd::prelude::*;
use crate::extent::Extent;
use crate::swapchain::{SurfaceCapabilities, SurfaceSwapchain};

verus! {

/// What one redraw produced.
#[derive(Clone, Copy, PartialEq, Eq, Structural, Debug)]
pub enum FrameOutcome {
    /// The frame was submitted and queued for presentation.
    Presented,
    /// The window had no area; the device was not touched.
    Skipped,
    /// The swapchain was (or is about to be) rebuilt; this frame produced no
    /// visible output and the window should be redrawn promptly.
    Recreated,
}

/// What the device reported when the next presentable image was requested.
/// Any other acquisition error is fatal and never reaches the engine.
#[derive(Clone, Copy, PartialEq, Eq, Structural, Debug)]
pub enum AcquireResult {
    /// An image is available. `suboptimal` marks a chain that still works
    /// but no longer matches the surface perfectly.
    Ready { image_index: u32, suboptimal: bool },
    /// The swapchain is stale and must be rebuilt before any further use.
    OutOfDate,
}

/// What the device reported when the frame was submitted and presented.
/// Any other submission or present error is fatal and never reaches the
/// engine.
#[derive(Clone, Copy, PartialEq, Eq, Structural, Debug)]
pub enum PresentResult {
    /// The submission chain was accepted by the queue.
    Completed,
    /// The swapchain went stale at submit or present time.
    OutOfDate,
}

/// An opaque handle for in-flight device work. The work a token stands for
/// must be waited out before the resources it touches are reused or
/// destroyed. Token zero is the settled token: it stands for no work and is
/// trivially complete.
#[derive(Clone, Copy, PartialEq, Eq, Structural, Debug)]
pub struct CompletionToken {
    pub id: u64,
}

impl CompletionToken {
    /// The trivially-complete token.
    pub open spec fn spec_settled() -> CompletionToken {
        CompletionToken { id: 0 }
    }

    /// True of the token that stands for no in-flight work.
    pub open spec fn spec_is_settled(self) -> bool {
        self.id == 0
    }

    pub fn settled() -> (r: CompletionToken)
        ensures
            r == CompletionToken::spec_settled(),
    {
        CompletionToken { id: 0 }
    }

    pub fn is_settled(&self) -> (r: bool)
        ensures
            r == self.spec_is_settled(),
    {
        self.id == 0
    }
}

/// Where one window stands inside the per-frame protocol. Steady state is
/// `Idle`; the other phases live only between the steps of a single redraw.
#[derive(Clone, Copy, PartialEq, Eq, Structural, Debug)]
pub enum FramePhase {
    /// Between frames; every step sequence starts and ends here.
    Idle,
    /// The next presentable image has been requested.
    AwaitingImage,
    /// Commands against the acquired image are being submitted.
    AwaitingPresent { image_index: u32 },
}

/// What `begin_frame` asks of the harness.
#[derive(Clone, Copy, PartialEq, Eq, Structural, Debug)]
pub enum BeginAction {
    /// Zero-area window: do not touch the device this frame.
    Skip,
    /// Request the next presentable image. When `rebuilt` is set, a stale
    /// chain was just reconfigured and the harness must rebuild the device
    /// swapchain (and anything sized to it) before acquiring.
    Acquire { rebuilt: bool },
}

/// What `on_image_ready` asks of the harness.
#[derive(Clone, Copy, PartialEq, Eq, Structural, Debug)]
pub enum AcquireAction {
    /// The chain is stale; the frame is over with the given outcome and the
    /// rebuild happens on the next frame.
    Finish(FrameOutcome),
    /// Record and submit this frame's commands, resolving into the image at
    /// `image_index`, then present it.
    Submit { image_index: u32 },
}

/// The per-window synchronizer: one held completion token, a pending-rebuild
/// flag, and the protocol phase. Exactly one synchronizer owns a window's
/// token at any time.
#[derive(Clone, Copy, PartialEq, Eq, Structural, Debug)]
pub struct FrameSynchronizer {
    /// Completion token of the previous submission; settled when no work is
    /// in flight.
    pub token: CompletionToken,
    /// Identity for the next submission's token; never reused.
    pub next_token_id: u64,
    /// A stale or suboptimal chain was seen; rebuild before the next
    /// acquisition.
    pub recreate_pending: bool,
    /// Where the protocol of the current redraw stands.
    pub phase: FramePhase,
}

impl FrameSynchronizer {
    /// Token identities are handed out in order, so a fresh token can never
    /// collide with the held one.
    pub open spec fn wf(self) -> bool {
        self.token.id < self.next_token_id
    }

    /// A fresh synchronizer: settled token, nothing pending, idle.
    pub open spec fn spec_new() -> FrameSynchronizer {
        FrameSynchronizer {
            token: CompletionToken::spec_settled(),
            next_token_id: 1,
            recreate_pending: false,
            phase: FramePhase::Idle,
        }
    }

    pub fn new() -> (r: FrameSynchronizer)
        ensures
            r == FrameSynchronizer::spec_new(),
            r.wf(),
    {
        FrameSynchronizer {
            token: CompletionToken::settled(),
            next_token_id: 1,
            recreate_pending: false,
            phase: FramePhase::Idle,
        }
    }

    /// The step `begin_frame` takes: skip a zero-area window outright;
    /// otherwise rebuild the chain first when a rebuild is pending, and move
    /// to awaiting an image.
    pub open spec fn spec_begin_frame(
        self,
        chain: SurfaceSwapchain,
        caps: SurfaceCapabilities,
        window_size: Extent,
    ) -> (FrameSynchronizer, SurfaceSwapchain, BeginAction) {
        if window_size.spec_is_zero_area() {
            (self, chain, BeginAction::Skip)
        } else if self.recreate_pending {
            (
                FrameSynchronizer { recreate_pending: false, phase: FramePhase::AwaitingImage, ..self },
                chain.spec_recreate(caps, window_size),
                BeginAction::Acquire { rebuilt: true },
            )
        } else {
            (
                FrameSynchronizer { phase: FramePhase::AwaitingImage, ..self },
                chain,
                BeginAction::Acquire { rebuilt: false },
            )
        }
    }

    /// Starts one redraw. Completed prior work may be reclaimed by the
    /// harness at this point; the held token itself is untouched.
    pub fn begin_frame(
        &mut self,
        chain: &mut SurfaceSwapchain,
        caps: &SurfaceCapabilities,
        window_size: Extent,
    ) -> (a: BeginAction)
        requires
            old(self).wf(),
            old(self).phase is Idle,
            old(chain).wf(),
            old(chain).generation < u64::MAX,
        ensures
            (*final(self), *final(chain), a) == old(self).spec_begin_frame(
                *old(chain),
                *caps,
                window_size,
            ),
            final(self).wf(),
            final(chain).wf(),
    {
        if window_size.is_zero_area() {
            BeginAction::Skip
        } else if self.recreate_pending {
            chain.recreate(caps, window_size);
            self.recreate_pending = false;
            self.phase = FramePhase::AwaitingImage;
            BeginAction::Acquire { rebuilt: true }
        } else {
            self.phase = FramePhase::AwaitingImage;
            BeginAction::Acquire { rebuilt: false }
        }
    }

    /// The step `on_image_ready` takes: a stale report flags the rebuild for
    /// the next frame and ends this one as `Recreated`; an image moves the
    /// protocol to submission, and a suboptimal chain is flagged for a soft
    /// rebuild on a future frame while this frame still goes out.
    pub open spec fn spec_on_image_ready(self, r: AcquireResult) -> (FrameSynchronizer, AcquireAction) {
        match r {
            AcquireResult::Ready { image_index, suboptimal } => (
                FrameSynchronizer {
                    recreate_pending: self.recreate_pending || suboptimal,
                    phase: FramePhase::AwaitingPresent { image_index },
                    ..self
                },
                AcquireAction::Submit { image_index },
            ),
            AcquireResult::OutOfDate => (
                FrameSynchronizer { recreate_pending: true, phase: FramePhase::Idle, ..self },
                AcquireAction::Finish(FrameOutcome::Recreated),
            ),
        }
    }

    /// Takes the device's acquisition report. Staleness here is recoverable:
    /// the rebuild is deferred to the next frame rather than done within the
    /// call, so recreation never re-enters a frame in progress.
    pub fn on_image_ready(&mut self, chain: &SurfaceSwapchain, r: AcquireResult) -> (a: AcquireAction)
        requires
            old(self).wf(),
            old(self).phase is AwaitingImage,
            r matches AcquireResult::Ready { image_index, .. } ==> image_index < chain.image_count,
        ensures
            (*final(self), a) == old(self).spec_on_image_ready(r),
            final(self).wf(),
            a matches AcquireAction::Submit { image_index } ==> image_index < chain.image_count,
    {
        match r {
            AcquireResult::Ready { image_index, suboptimal } => {
                if suboptimal {
                    self.recreate_pending = true;
                }
                self.phase = FramePhase::AwaitingPresent { image_index };
                AcquireAction::Submit { image_index }
            },
            AcquireResult::OutOfDate => {
                self.recreate_pending = true;
                self.phase = FramePhase::Idle;
                AcquireAction::Finish(FrameOutcome::Recreated)
            },
        }
    }

    /// The step `on_present_result` takes: on success the new submission's
    /// token replaces the held one; on staleness the chain is rebuilt at
    /// once and the token settles, because the failed chain must not be
    /// waited on further.
    pub open spec fn spec_on_present_result(
        self,
        chain: SurfaceSwapchain,
        caps: SurfaceCapabilities,
        window_size: Extent,
        r: PresentResult,
    ) -> (FrameSynchronizer, SurfaceSwapchain, FrameOutcome) {
        match r {
            PresentResult::Completed => (
                FrameSynchronizer {
                    token: CompletionToken { id: self.next_token_id },
                    next_token_id: (self.next_token_id + 1) as u64,
                    phase: FramePhase::Idle,
                    ..self
                },
                chain,
                FrameOutcome::Presented,
            ),
            PresentResult::OutOfDate => (
                FrameSynchronizer {
                    token: CompletionToken::spec_settled(),
                    recreate_pending: false,
                    phase: FramePhase::Idle,
                    ..self
                },
                chain.spec_recreate(caps, window_size),
                FrameOutcome::Recreated,
            ),
        }
    }

    /// Takes the device's submit/present report and ends the frame.
    pub fn on_present_result(
        &mut self,
        chain: &mut SurfaceSwapchain,
        caps: &SurfaceCapabilities,
        window_size: Extent,
        r: PresentResult,
    ) -> (o: FrameOutcome)
        requires
            old(self).wf(),
            old(self).phase is AwaitingPresent,
            old(self).next_token_id < u64::MAX,
            old(chain).wf(),
            old(chain).generation < u64::MAX,
        ensures
            (*final(self), *final(chain), o) == old(self).spec_on_present_result(
                *old(chain),
                *caps,
                window_size,
                r,
            ),
            final(self).wf(),
            final(chain).wf(),
            final(self).phase is Idle,
    {
        match r {
            PresentResult::Completed => {
                self.token = CompletionToken { id: self.next_token_id };
                self.next_token_id = self.next_token_id + 1;
                self.phase = FramePhase::Idle;
                FrameOutcome::Presented
            },
            PresentResult::OutOfDate => {
                chain.recreate(caps, window_size);
                self.token = CompletionToken::settled();
                self.recreate_pending = false;
                self.phase = FramePhase::Idle;
                FrameOutcome::Recreated
            },
        }
    }
}

} // verus!

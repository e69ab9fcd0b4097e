//! Present modes and the fixed priority policy that picks one.

use vstd::prelude::*;

verus! {

/// How a finished image is handed to the display.
#[derive(Clone, Copy, PartialEq, Eq, Structural, Debug)]
pub enum PresentMode {
    /// Uncapped: present as soon as possible, tearing allowed.
    Immediate,
    /// Low-latency triple buffering: the newest ready image replaces a
    /// queued one.
    Mailbox,
    /// Strict first-in-first-out queue, always supported.
    Fifo,
    /// First-in-first-out, but a late frame may tear instead of waiting a
    /// whole interval.
    FifoRelaxed,
}

/// The chosen present mode, by a fixed priority list per vsync flag: with
/// vsync, a low-latency triple-buffered mode when supported, else strict
/// first-in-first-out; without vsync, the uncapped mode, else relaxed
/// first-in-first-out, else plain first-in-first-out.
pub open spec fn spec_choose_present_mode(vsync: bool, supported: Seq<PresentMode>) -> PresentMode {
    if vsync {
        if supported.contains(PresentMode::Mailbox) {
            PresentMode::Mailbox
        } else {
            PresentMode::Fifo
        }
    } else {
        if supported.contains(PresentMode::Immediate) {
            PresentMode::Immediate
        } else if supported.contains(PresentMode::FifoRelaxed) {
            PresentMode::FifoRelaxed
        } else {
            PresentMode::Fifo
        }
    }
}

/// Whether `supported` lists the mode `m`.
pub fn mode_supported(supported: &Vec<PresentMode>, m: PresentMode) -> (r: bool)
    ensures
        r == supported@.contains(m),
{
    let mut i: usize = 0;
    while i < supported.len()
        invariant
            0 <= i <= supported@.len(),
            forall|k: int| 0 <= k < i ==> supported@[k] != m,
        decreases supported@.len() - i,
    {
        if supported[i] == m {
            return true;
        }
        i = i + 1;
    }
    false
}

/// Picks the present mode for a new swapchain; first supported entry of the
/// priority list for the given vsync preference.
pub fn choose_present_mode(vsync: bool, supported: &Vec<PresentMode>) -> (r: PresentMode)
    ensures
        r == spec_choose_present_mode(vsync, supported@),
{
    if vsync {
        if mode_supported(supported, PresentMode::Mailbox) {
            PresentMode::Mailbox
        } else {
            PresentMode::Fifo
        }
    } else {
        if mode_supported(supported, PresentMode::Immediate) {
            PresentMode::Immediate
        } else if mode_supported(supported, PresentMode::FifoRelaxed) {
            PresentMode::FifoRelaxed
        } else {
            PresentMode::Fifo
        }
    }
}

} // verus!

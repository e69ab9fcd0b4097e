//! Pixel extents and the rule that picks a swapchain's extent.

use vstd::prelude::*;

verus! {

/// A window or image size in whole pixels.
#[derive(Clone, Copy, PartialEq, Eq, Structural, Debug)]
pub struct Extent {
    pub width: u32,
    pub height: u32,
}

impl Extent {
    /// An extent with no area cannot be rendered to; redraws against it are
    /// skipped rather than submitted.
    pub open spec fn spec_is_zero_area(self) -> bool {
        self.width == 0 || self.height == 0
    }

    pub fn is_zero_area(&self) -> (r: bool)
        ensures
            r == self.spec_is_zero_area(),
    {
        self.width == 0 || self.height == 0
    }
}

/// The extent a swapchain is built with: the surface's reported current
/// extent when the surface fixes one, otherwise the window's own pixel size
/// (the surface reporting no extent means "adapt to the window").
pub open spec fn spec_resolve_extent(surface_current: Option<Extent>, window_size: Extent) -> Extent {
    match surface_current {
        Option::Some(e) => e,
        Option::None => window_size,
    }
}

pub fn resolve_extent(surface_current: Option<Extent>, window_size: Extent) -> (r: Extent)
    ensures
        r == spec_resolve_extent(surface_current, window_size),
{
    match surface_current {
        Option::Some(e) => e,
        Option::None => window_size,
    }
}

} // verus!

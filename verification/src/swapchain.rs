//! The presentable image chain of one window: how it is configured from the
//! surface's capabilities, and how it is rebuilt when the window changes.

use vstd::prelude::*;
use crate::extent::{Extent, spec_resolve_extent, resolve_extent};
use crate::present::{PresentMode, spec_choose_present_mode, choose_present_mode};

verus! {

/// What the adapter reports about one window surface.
#[derive(Clone, Copy, PartialEq, Eq, Structural, Debug)]
pub struct SurfaceCapabilities {
    /// Fewest images a swapchain on this surface may hold; at least one.
    pub min_image_count: u32,
    /// Most images it may hold, when the surface bounds that at all.
    pub max_image_count: Option<u32>,
    /// The extent the surface fixes, or `None` for "adapt to the window".
    pub current_extent: Option<Extent>,
}

impl SurfaceCapabilities {
    /// Capabilities as a real surface reports them: the minimum count is at
    /// least one, leaves room for one more image, and never exceeds the
    /// maximum when one is given.
    pub open spec fn wf(self) -> bool {
        &&& 1 <= self.min_image_count
        &&& self.min_image_count < u32::MAX
        &&& (self.max_image_count matches Option::Some(m) ==> self.min_image_count <= m)
    }
}

/// The image count a new swapchain asks for: one more than the surface's
/// minimum, for latency, capped by the maximum when the surface has one.
pub open spec fn spec_image_count(caps: SurfaceCapabilities) -> u32 {
    let preferred = (caps.min_image_count + 1) as u32;
    match caps.max_image_count {
        Option::Some(m) => if preferred <= m {
            preferred
        } else {
            m
        },
        Option::None => preferred,
    }
}

pub fn image_count(caps: &SurfaceCapabilities) -> (r: u32)
    requires
        caps.wf(),
    ensures
        r == spec_image_count(*caps),
        caps.min_image_count <= r,
        caps.max_image_count matches Option::Some(m) ==> r <= m,
{
    let preferred = caps.min_image_count + 1;
    match caps.max_image_count {
        Option::Some(m) => if preferred <= m {
            preferred
        } else {
            m
        },
        Option::None => preferred,
    }
}

/// The pixel format of the presentable images. The pipeline is compiled for
/// 8-bit BGRA with sRGB encoding, so the chain always uses it.
#[derive(Clone, Copy, PartialEq, Eq, Structural, Debug)]
pub enum ImageFormat {
    B8G8R8A8Srgb,
}

/// The presentable image chain of one window, as the engine reasons about
/// it: its configuration, and a generation counter that advances each time
/// the images are released and rebuilt.
#[derive(Clone, Copy, PartialEq, Eq, Structural, Debug)]
pub struct SurfaceSwapchain {
    /// Size of every image in the chain.
    pub extent: Extent,
    /// How images are handed to the display; fixed at creation.
    pub present_mode: PresentMode,
    /// How many presentable images the chain holds.
    pub image_count: u32,
    /// Pixel format of every image; fixed at creation.
    pub format: ImageFormat,
    /// The surface's minimum image count when the chain was configured.
    pub min_image_count: u32,
    /// The surface's maximum image count when the chain was configured.
    pub max_image_count: Option<u32>,
    /// How many times the images have been rebuilt. Old images are fully
    /// released before a rebuild, so two generations never coexist.
    pub generation: u64,
}

impl SurfaceSwapchain {
    /// The chain's invariant: the image count lies between the surface's
    /// minimum and, when bounded, its maximum.
    pub open spec fn wf(self) -> bool {
        &&& 1 <= self.min_image_count
        &&& self.min_image_count <= self.image_count
        &&& (self.max_image_count matches Option::Some(m) ==> self.image_count <= m)
    }

    /// The configuration `create` picks from the surface's capabilities, the
    /// window's size and the vsync preference.
    pub open spec fn spec_create(
        caps: SurfaceCapabilities,
        window_size: Extent,
        vsync: bool,
        supported: Seq<PresentMode>,
    ) -> SurfaceSwapchain {
        SurfaceSwapchain {
            extent: spec_resolve_extent(caps.current_extent, window_size),
            present_mode: spec_choose_present_mode(vsync, supported),
            image_count: spec_image_count(caps),
            format: ImageFormat::B8G8R8A8Srgb,
            min_image_count: caps.min_image_count,
            max_image_count: caps.max_image_count,
            generation: 0,
        }
    }

    /// Configures the chain for one window. A zero-area window is permitted
    /// structurally; rendering against the result is the caller's to skip.
    pub fn create(
        caps: &SurfaceCapabilities,
        window_size: Extent,
        vsync: bool,
        supported: &Vec<PresentMode>,
    ) -> (r: SurfaceSwapchain)
        requires
            caps.wf(),
        ensures
            r == SurfaceSwapchain::spec_create(*caps, window_size, vsync, supported@),
            r.wf(),
    {
        SurfaceSwapchain {
            extent: resolve_extent(caps.current_extent, window_size),
            present_mode: choose_present_mode(vsync, supported),
            image_count: image_count(caps),
            format: ImageFormat::B8G8R8A8Srgb,
            min_image_count: caps.min_image_count,
            max_image_count: caps.max_image_count,
            generation: 0,
        }
    }

    /// The chain after a rebuild: the extent follows the surface and window
    /// anew, the images are a fresh generation, and every other setting is
    /// the chain's own prior configuration.
    pub open spec fn spec_recreate(self, caps: SurfaceCapabilities, window_size: Extent) -> SurfaceSwapchain {
        SurfaceSwapchain {
            extent: spec_resolve_extent(caps.current_extent, window_size),
            generation: (self.generation + 1) as u64,
            ..self
        }
    }

    /// Rebuilds the chain in place. The old images are released before the
    /// new generation exists; the caller must have waited out any completion
    /// token covering them.
    pub fn recreate(&mut self, caps: &SurfaceCapabilities, window_size: Extent)
        requires
            old(self).wf(),
            old(self).generation < u64::MAX,
        ensures
            *final(self) == old(self).spec_recreate(*caps, window_size),
            final(self).wf(),
    {
        self.extent = resolve_extent(caps.current_extent, window_size);
        self.generation = self.generation + 1;
    }
}

} // verus!

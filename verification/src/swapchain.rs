//! Swapchain capability negotiation: given what a surface reports it can do
//! and the extent the window asked for, compute the extent and image count
//! the swapchain is actually built with.

use vstd::prelude::*;

verus! {

/// Width and height of the presentable surface, in pixels.
#[derive(Clone, Copy, Debug, PartialEq, Eq, Structural)]
pub struct Extent2d {
    pub width: u32,
    pub height: u32,
}

impl Extent2d {
    /// Both dimensions bounded componentwise by `lo` and `hi`.
    pub open spec fn within(self, lo: Extent2d, hi: Extent2d) -> bool {
        lo.width <= self.width <= hi.width && lo.height <= self.height <= hi.height
    }
}

/// What a capability query on the surface reported: the supported range of
/// presentable-image counts and extents, and the surface's current extent if
/// it has an explicit one.
#[derive(Clone, Copy, Debug, PartialEq, Eq, Structural)]
pub struct SurfaceCaps {
    pub min_image_count: u32,
    pub max_image_count: u32,
    pub current_extent: Option<Extent2d>,
    pub min_extent: Extent2d,
    pub max_extent: Extent2d,
}

impl SurfaceCaps {
    /// The guarantees a surface gives about its own capability report.
    pub open spec fn wf(self) -> bool {
        &&& 1 <= self.min_image_count <= self.max_image_count
        &&& self.min_extent.width <= self.max_extent.width
        &&& self.min_extent.height <= self.max_extent.height
        &&& match self.current_extent {
            Some(e) => e.within(self.min_extent, self.max_extent),
            None => true,
        }
    }
}

/// Preferred number of presentable images before clamping to the range the
/// surface supports; three gives double-buffering plus one in flight.
pub const PREFERRED_IMAGE_COUNT: u32 = 3;

/// `d` clamped into `lo ..= hi` (for `lo <= hi`).
pub open spec fn clamp_dim(d: u32, lo: u32, hi: u32) -> u32 {
    if d < lo {
        lo
    } else if d > hi {
        hi
    } else {
        d
    }
}

/// The extent the swapchain is built with: the surface's current extent when
/// it has an explicit one, otherwise the requested extent clamped to the
/// supported range.
pub open spec fn negotiated_extent(caps: SurfaceCaps, requested: Extent2d) -> Extent2d {
    match caps.current_extent {
        Some(current) => current,
        None => Extent2d {
            width: clamp_dim(requested.width, caps.min_extent.width, caps.max_extent.width),
            height: clamp_dim(requested.height, caps.min_extent.height, caps.max_extent.height),
        },
    }
}

/// The image count the swapchain is built with: the preferred count clamped
/// to the supported range.
pub open spec fn negotiated_image_count(caps: SurfaceCaps) -> u32 {
    clamp_dim(PREFERRED_IMAGE_COUNT, caps.min_image_count, caps.max_image_count)
}

/// The configuration a reconfiguration builds the new swapchain with.
/// Presentation always uses the FIFO (vsynced, no-tearing) mode.
#[derive(Clone, Copy, Debug, PartialEq, Eq, Structural)]
pub struct SwapchainConfig {
    pub extent: Extent2d,
    pub image_count: u32,
}

fn clamp_exec(d: u32, lo: u32, hi: u32) -> (r: u32)
    requires
        lo <= hi,
    ensures
        r == clamp_dim(d, lo, hi),
{
    if d < lo {
        lo
    } else if d > hi {
        hi
    } else {
        d
    }
}

/// Negotiate a swapchain configuration from a capability report and the
/// extent last requested by a resize.
pub fn negotiate(caps: &SurfaceCaps, requested: Extent2d) -> (c: SwapchainConfig)
    requires
        caps.wf(),
    ensures
        c.extent == negotiated_extent(*caps, requested),
        c.image_count == negotiated_image_count(*caps),
        1 <= c.image_count,
{
    let extent = match caps.current_extent {
        Some(current) => current,
        None => Extent2d {
            width: clamp_exec(requested.width, caps.min_extent.width, caps.max_extent.width),
            height: clamp_exec(requested.height, caps.min_extent.height, caps.max_extent.height),
        },
    };
    let image_count = clamp_exec(PREFERRED_IMAGE_COUNT, caps.min_image_count, caps.max_image_count);
    SwapchainConfig { extent, image_count }
}

} // verus!

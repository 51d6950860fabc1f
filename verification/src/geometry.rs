//! Surface geometry and the rasterization state derived from it.

use vstd::prelude::*;

verus! {

/// Width and height of a surface or image, in pixels.
#[derive(Clone, Copy, Debug, PartialEq, Eq, Structural)]
pub struct Extent {
    pub width: u32,
    pub height: u32,
}

impl Extent {
    /// True when the extent covers no pixel at all.
    pub open spec fn is_degenerate(&self) -> bool {
        self.width == 0 || self.height == 0
    }

    pub fn new(width: u32, height: u32) -> (extent: Extent)
        ensures
            extent == (Extent { width, height }),
    {
        Extent { width, height }
    }

    /// Whether the extent has zero area.
    pub fn degenerate(&self) -> (zero_area: bool)
        ensures
            zero_area == self.is_degenerate(),
    {
        self.width == 0 || self.height == 0
    }
}

/// Dynamic rasterization state: the viewport that covers the swapchain
/// images. It has no life of its own; it is recomputed from the swapchain's
/// dimensions whenever the swapchain is built.
#[derive(Clone, Copy, Debug, PartialEq, Eq, Structural)]
pub struct ViewportState {
    /// Width in pixels.
    pub width: u32,
    /// Height in pixels.
    pub height: u32,
    /// Near end of the depth range.
    pub depth_near: u32,
    /// Far end of the depth range.
    pub depth_far: u32,
}

impl ViewportState {
    /// The viewport that spans an extent, with depth range [0, 1].
    pub open spec fn spanning(extent: Extent) -> ViewportState {
        ViewportState { width: extent.width, height: extent.height, depth_near: 0, depth_far: 1 }
    }

    /// Computes the viewport that spans `extent`.
    pub fn covering(extent: Extent) -> (viewport: ViewportState)
        ensures
            viewport == Self::spanning(extent),
    {
        ViewportState { width: extent.width, height: extent.height, depth_near: 0, depth_far: 1 }
    }
}

} // verus!

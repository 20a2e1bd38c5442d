use vstd::prelude::*;

verus! {

/// Pixel dimensions of a drawable target.
#[derive(Clone, Copy, PartialEq, Eq, Structural, Debug)]
pub struct Extent {
    pub width: u32,
    pub height: u32,
}

/// What the driver reports about a surface before a swapchain is built:
/// the least number of presentable images it will hand out, the supported
/// pixel formats, composite-alpha modes and present modes in the driver's
/// own order, and the surface's current extent where the platform reports
/// one.
#[derive(Clone, Debug)]
pub struct SurfaceCaps {
    pub min_image_count: u32,
    pub formats: Vec<u32>,
    pub alpha_modes: Vec<u32>,
    pub present_modes: Vec<u32>,
    pub current_extent: Option<Extent>,
}

impl SurfaceCaps {
    /// A report a swapchain can be built from: the driver offered at least
    /// one format and one composite-alpha mode to choose from.
    pub open spec fn usable(&self) -> bool {
        self.formats.len() > 0 && self.alpha_modes.len() > 0
    }
}

} // verus!

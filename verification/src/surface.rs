//! The GPU presentation surface's configuration.
//!
//! The surface must always be configured with dimensions of at least one
//! pixel in each axis: the window layer may report a zero width or height
//! (a minimised window), and a zero-sized surface cannot be configured.
//! Every reported size is therefore clamped to a minimum of 1 per axis.

use vstd::prelude::*;

verus! {

/// What a reported dimension becomes when the surface is configured:
/// a zero is raised to 1, anything else is kept exactly.
pub open spec fn clamp_dim(d: u32) -> u32 {
    if d == 0 {
        1u32
    } else {
        d
    }
}

/// The swap configuration of the presentation surface: its pixel dimensions.
/// (The pixel format is chosen once by the GPU backend and never changes,
/// so it is not part of the model.)
#[derive(Clone, Copy, Debug, PartialEq, Eq, Structural)]
pub struct SurfaceConfig {
    pub width: u32,
    pub height: u32,
}

/// The configuration a resize to the reported size `(w, h)` leads to.
pub open spec fn spec_resized(w: u32, h: u32) -> SurfaceConfig {
    SurfaceConfig { width: clamp_dim(w), height: clamp_dim(h) }
}

impl SurfaceConfig {
    /// The surface's invariant: it always matches the window's current
    /// physical size, which is at least one pixel in each axis.
    pub open spec fn wf(self) -> bool {
        self.width >= 1 && self.height >= 1
    }

    /// Build the initial configuration from the size the window reports at
    /// startup, clamping each axis to a minimum of 1.
    pub fn new(width: u32, height: u32) -> (c: Self)
        ensures
            c == spec_resized(width, height),
            c.wf(),
    {
        SurfaceConfig { width: clamp_u32(width), height: clamp_u32(height) }
    }

    /// Handle a resize event: the configuration becomes the reported size,
    /// clamped to a minimum of 1 in each axis.
    pub fn resize(&mut self, width: u32, height: u32)
        ensures
            *final(self) == spec_resized(width, height),
            final(self).wf(),
    {
        self.width = clamp_u32(width);
        self.height = clamp_u32(height);
    }
}

/// Clamp one reported dimension to a minimum of 1.
fn clamp_u32(d: u32) -> (r: u32)
    ensures
        r == clamp_dim(d),
{
    if d == 0 {
        1
    } else {
        d
    }
}

/// A resize whose reported dimensions are both at least 1 configures the
/// surface to exactly the reported size.
pub proof fn lemma_resize_exact(w: u32, h: u32)
    requires
        w >= 1,
        h >= 1,
    ensures
        spec_resized(w, h).width == w,
        spec_resized(w, h).height == h,
{
}

/// A resize that reports 0 for an axis configures that axis to exactly 1.
pub proof fn lemma_resize_zero_clamped(w: u32, h: u32)
    ensures
        w == 0 ==> spec_resized(w, h).width == 1,
        h == 0 ==> spec_resized(w, h).height == 1,
        spec_resized(w, h).wf(),
{
}

} // verus!

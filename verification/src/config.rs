//! The render configuration: image dimensions, the iteration budget and the
//! gradient choice, validated once before a render starts.
//!
//! The zoom factor and the pan offsets act only inside the floating-point
//! coordinate mapping, which runs in the caller; they are validated there
//! (both must keep the mapping's divisors nonzero) and never reach this core.

use crate::gradient::GradientKind;
use vstd::prelude::*;

verus! {

/// Parameters of one render, immutable while it runs.
#[derive(Clone, Copy, Debug, PartialEq, Eq, Structural)]
pub struct RenderConfig {
    /// Image width in pixels.
    pub width: u32,
    /// Image height in pixels.
    pub height: u32,
    /// The iteration budget of the escape countdown; the conventional choice
    /// is `256`.
    pub max_iterations: u32,
    /// The gradient formula that colors the depths.
    pub gradient: GradientKind,
}

impl RenderConfig {
    /// A usable configuration: both dimensions are positive, the countdown
    /// has room for at least one step, and the raster's pixel count fits a
    /// `usize` length.
    pub open spec fn wf(self) -> bool {
        &&& self.width >= 1
        &&& self.height >= 1
        &&& self.max_iterations >= 2
        &&& self.width * self.height <= usize::MAX
    }

    /// The number of pixels of the raster.
    pub open spec fn pixel_count(self) -> int {
        self.width * self.height
    }

    /// Validates the parameters of a render; `None` exactly when they do not
    /// form a usable configuration.
    pub fn new(width: u32, height: u32, max_iterations: u32, gradient: GradientKind) -> (r:
        Option<RenderConfig>)
        ensures
            r matches Some(c) ==> c == (RenderConfig { width, height, max_iterations, gradient })
                && c.wf(),
            r is Some <==> (RenderConfig { width, height, max_iterations, gradient }).wf(),
    {
        proof {
            assert((width as int) * (height as int) <= u64::MAX) by (nonlinear_arith)
                requires
                    width <= u32::MAX,
                    height <= u32::MAX,
            ;
        }
        if width >= 1 && height >= 1 && max_iterations >= 2 && (width as u64) * (height as u64)
            <= (usize::MAX as u64) {
            Some(RenderConfig { width, height, max_iterations, gradient })
        } else {
            None
        }
    }

    /// The number of pixels of the raster, as a vector length.
    pub fn pixel_total(&self) -> (n: usize)
        requires
            self.wf(),
        ensures
            n == self.pixel_count(),
    {
        ((self.width as u64) * (self.height as u64)) as usize
    }
}

} // verus!

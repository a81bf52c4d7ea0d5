use vstd::prelude::*;

verus! {

/// The discrete render parameters: the pixel grid, the iteration bound, and
/// the mode switch.  The real-valued parameters (viewport center, zoom, the
/// Julia constant, and the color multiplier and offset) are consumed only by
/// the floating-point kernel, which sits outside this library and validates
/// them at its own boundary.
#[derive(Clone, Copy, Debug, PartialEq, Eq, Structural)]
pub struct RenderSettings {
    pub width: u32,
    pub height: u32,
    pub max_iterations: u32,
    pub julia: bool,
}

impl RenderSettings {
    /// The configuration invariant: a positive pixel grid and a positive
    /// iteration bound.
    pub open spec fn wf(self) -> bool {
        self.width > 0 && self.height > 0 && self.max_iterations > 0
    }

    /// Number of values in the output field: one per pixel, row-major.
    pub open spec fn spec_field_len(self) -> int {
        self.width * self.height
    }

    /// Accepts exactly the parameter sets that satisfy the configuration
    /// invariant; everything else is rejected before a render can start.
    pub fn new(width: u32, height: u32, max_iterations: u32, julia: bool) -> (r: Option<
        RenderSettings,
    >)
        ensures
            r is Some <==> width > 0 && height > 0 && max_iterations > 0,
            r matches Some(s) ==> s == (RenderSettings { width, height, max_iterations, julia }),
    {
        if width > 0 && height > 0 && max_iterations > 0 {
            Some(RenderSettings { width, height, max_iterations, julia })
        } else {
            None
        }
    }

    /// The length of the field buffer this configuration produces.
    pub fn field_len(&self) -> (r: u64)
        ensures
            r == self.spec_field_len(),
    {
        proof {
            assert((self.width as int) * (self.height as int) <= 0xffff_ffff * 0xffff_ffff)
                by (nonlinear_arith)
                requires
                    self.width <= 0xffff_ffffu32,
                    self.height <= 0xffff_ffffu32,
            ;
        }
        (self.width as u64) * (self.height as u64)
    }
}

impl Default for RenderSettings {
    /// The classic framing: an 800 by 800 grid, 256 iterations, Mandelbrot.
    fn default() -> (r: Self)
        ensures
            r == (RenderSettings { width: 800u32, height: 800u32, max_iterations: 256u32, julia: false }),
            r.wf(),
    {
        RenderSettings { width: 800, height: 800, max_iterations: 256, julia: false }
    }
}

} // verus!

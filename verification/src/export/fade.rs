//! The curve a clip-edge fade follows.

use vstd::prelude::*;

verus! {

/// The curve a fade ramp follows from silence to unity.
#[derive(Debug, Clone, Copy, PartialEq, Eq, Structural)]
pub enum FadeShape {
    /// Straight-line gain.
    Linear,
    /// Quarter-sine gain, so a matched fade-out/fade-in pair sums to constant
    /// power.
    EqualPower,
}

impl Default for FadeShape {
    fn default() -> (s: Self)
        ensures
            s == FadeShape::Linear,
    {
        FadeShape::Linear
    }
}

} // verus!

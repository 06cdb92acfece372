//! The curves that the plot can show.

use vstd::prelude::*;

verus! {

/// The curve drawn in the plot.
#[derive(Clone, Copy, Debug, PartialEq, Eq, Structural)]
pub enum Plot {
    /// A sine wave.
    Sin,
    /// A Gaussian bell.
    Bell,
    /// A logistic curve, stretched to lie between -1 and 1.
    Sigmoid,
}

/// The number of equal steps into which the plotted domain is cut. A curve is
/// sampled at both ends of every step.
pub const SAMPLE_INTERVALS: u32 = 128;

/// The number of points at which a curve is sampled.
pub const SAMPLE_POINTS: u32 = SAMPLE_INTERVALS + 1;

} // verus!

//! The colour scale: how a file's size or age picks its colour.

use vstd::prelude::*;

verus! {

/// How the colours of the scale are chosen.
#[derive(Debug, PartialEq, Eq, Clone, Copy)]
pub enum ColorScaleMode {
    Fixed,
    Gradient,
}

/// The options of the colour scale.
#[derive(Debug, PartialEq, Eq, Clone, Copy)]
pub struct ColorScaleOptions {
    pub mode: ColorScaleMode,
    /// The lowest luminance of the scale, from -100 to 100.
    pub min_luminance: isize,
    /// Whether sizes are coloured by the scale.
    pub size: bool,
    /// Whether ages are coloured by the scale.
    pub age: bool,
}

impl ColorScaleOptions {
    /// The luminance is in the range that the scale accepts.
    pub open spec fn wf(&self) -> bool {
        -100 <= self.min_luminance <= 100
    }
}

} // verus!

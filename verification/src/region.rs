//! Region records: the data a blur region is made of.
//!
//! A region record describes one rectangular, optionally rounded area to blur,
//! in physical pixel coordinates of the target surface. Records are built
//! fresh every frame by the extractor, never mutated afterwards, and discarded
//! wholesale by the next frame's clear. All fields are binary32 bit patterns
//! (see [`crate::scalar`]).

use vstd::prelude::*;
use crate::settings::BlurRegionSettings;

verus! {

/// An axis-aligned rectangle in physical pixels. `min <= max` is expected on
/// both axes but not required: a record with inverted or degenerate bounds is
/// permitted and simply contains no pixel.
#[derive(Clone, Copy, PartialEq, Eq, Structural, Debug)]
pub struct Rect {
    pub min_x: u32,
    pub max_x: u32,
    pub min_y: u32,
    pub max_y: u32,
}

/// One border radius per corner, each resolved to a non-negative pixel value.
#[derive(Clone, Copy, PartialEq, Eq, Structural, Debug)]
pub struct BorderRadii {
    pub top_left: u32,
    pub top_right: u32,
    pub bottom_right: u32,
    pub bottom_left: u32,
}

impl BorderRadii {
    /// All four corners square.
    pub open spec fn spec_zero() -> BorderRadii {
        BorderRadii { top_left: 0, top_right: 0, bottom_right: 0, bottom_left: 0 }
    }

    /// All four corners square.
    pub fn zero() -> (r: BorderRadii)
        ensures
            r == BorderRadii::spec_zero(),
    {
        BorderRadii { top_left: 0, top_right: 0, bottom_right: 0, bottom_left: 0 }
    }
}

/// The final computed values of one blur region, in physical pixels: the
/// rectangle bounds, the four resolved corner radii, and the visual
/// parameters the shading stage applies inside the region.
#[derive(Clone, Copy, PartialEq, Eq, Structural, Debug)]
pub struct ComputedBlurRegion {
    pub min_x: u32,
    pub max_x: u32,
    pub min_y: u32,
    pub max_y: u32,
    pub border_radii: BorderRadii,
    pub settings: BlurRegionSettings,
}

} // verus!

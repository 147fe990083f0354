//! Plain geometric value types: absolute lengths, container-relative
//! fractions, linear sizes combining both, exact aspect ratios, colors,
//! paints, and four-sided padding values.
//!
//! All magnitudes are exact integers: absolute lengths count abstract layout
//! units, and fractions of the containing box are held in parts per million.

use vstd::prelude::*;

verus! {

/// An absolute length, counted in abstract layout units.
#[derive(Clone, Copy, PartialEq, Eq, Structural, Debug)]
pub struct Length {
    pub units: i64,
}

/// A fraction of the containing box's corresponding dimension, in parts per
/// million of that dimension.
#[derive(Clone, Copy, PartialEq, Eq, Structural, Debug)]
pub struct Relative {
    pub ppm: i64,
}

/// A linear size: an absolute length plus a fraction of the containing box's
/// corresponding dimension (in parts per million).
#[derive(Clone, Copy, PartialEq, Eq, Structural, Debug)]
pub struct Linear {
    pub abs: i64,
    pub rel_ppm: i64,
}

impl Linear {
    /// The linear value of a pure absolute length: no relative part.
    pub open spec fn spec_from_length(l: Length) -> Linear {
        Linear { abs: l.units, rel_ppm: 0 }
    }

    /// Converts an absolute length into a linear value with no relative part.
    pub fn from_length(l: Length) -> (r: Linear)
        ensures
            r == Linear::spec_from_length(l),
    {
        Linear { abs: l.units, rel_ppm: 0 }
    }

    /// The linear value of a pure relative fraction: no absolute part.
    pub open spec fn spec_from_relative(rel: Relative) -> Linear {
        Linear { abs: 0, rel_ppm: rel.ppm }
    }

    /// Converts a relative fraction into a linear value with no absolute part.
    pub fn from_relative(rel: Relative) -> (r: Linear)
        ensures
            r == Linear::spec_from_relative(rel),
    {
        Linear { abs: 0, rel_ppm: rel.ppm }
    }
}

/// An exact aspect ratio (height divided by width), held as a rational
/// number. Valid only with a nonzero denominator.
#[derive(Clone, Copy, PartialEq, Eq, Structural, Debug)]
pub struct Ratio {
    pub num: u64,
    pub den: u64,
}

impl Ratio {
    /// A ratio is well-formed when its denominator is nonzero.
    pub open spec fn wf(self) -> bool {
        self.den > 0
    }

    /// The 1:1 ratio forced by the square and circle families.
    pub open spec fn spec_one() -> Ratio {
        Ratio { num: 1, den: 1 }
    }

    /// Returns the 1:1 ratio.
    pub fn one() -> (r: Ratio)
        ensures
            r == Ratio::spec_one(),
            r.wf(),
    {
        Ratio { num: 1, den: 1 }
    }
}

/// A flat color, as red, green, blue and alpha channels.
#[derive(Clone, Copy, PartialEq, Eq, Structural, Debug)]
pub struct Color {
    pub r: u8,
    pub g: u8,
    pub b: u8,
    pub a: u8,
}

/// A paint for a background shape. Shape fills are always flat colors.
#[derive(Clone, Copy, PartialEq, Eq, Structural, Debug)]
pub enum Paint {
    Color(Color),
}

/// Linear padding values for the four sides of a box.
#[derive(Clone, Copy, PartialEq, Eq, Structural, Debug)]
pub struct Sides {
    pub left: Linear,
    pub top: Linear,
    pub right: Linear,
    pub bottom: Linear,
}

impl Sides {
    /// Four equal sides.
    pub open spec fn spec_splat(v: Linear) -> Sides {
        Sides { left: v, top: v, right: v, bottom: v }
    }

    /// Builds a `Sides` with the same value on all four sides.
    pub fn splat(v: Linear) -> (s: Sides)
        ensures
            s == Sides::spec_splat(v),
    {
        Sides { left: v, top: v, right: v, bottom: v }
    }
}

} // verus!

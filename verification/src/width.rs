//! Column width values.

use vstd::prelude::*;

verus! {

/// A column width: an absolute pixel length, a proportional stretch weight
/// (a column's share of the remaining space relative to the sum of all
/// stretch weights), or a percentage of the container.
#[derive(Clone, Copy, Debug, PartialEq, Eq, Structural)]
pub enum Width {
    /// An absolute length in pixels, independent of container size.
    Fixed(i64),
    /// A proportional stretch weight.
    Stretch(i64),
    /// A percentage of the container.
    Percentage(i64),
}

impl Width {
    /// The numeric magnitude of the width, whatever its unit.
    pub open spec fn spec_value(self) -> int {
        match self {
            Width::Fixed(v) => v as int,
            Width::Stretch(v) => v as int,
            Width::Percentage(v) => v as int,
        }
    }

    /// A width is well formed when its magnitude is non-negative.
    pub open spec fn is_nonneg(self) -> bool {
        self.spec_value() >= 0
    }

    /// The same width with any magnitude below zero raised to zero; the
    /// unit is kept. This is how every store operation sanitizes its input.
    pub open spec fn spec_clamped(self) -> Width {
        match self {
            Width::Fixed(v) => Width::Fixed(if v < 0 { 0 } else { v }),
            Width::Stretch(v) => Width::Stretch(if v < 0 { 0 } else { v }),
            Width::Percentage(v) => Width::Percentage(if v < 0 { 0 } else { v }),
        }
    }

    /// Clamp the magnitude to zero from below, keeping the unit.
    pub fn clamped(self) -> (r: Width)
        ensures
            r == self.spec_clamped(),
    {
        match self {
            Width::Fixed(v) => Width::Fixed(if v < 0 { 0 } else { v }),
            Width::Stretch(v) => Width::Stretch(if v < 0 { 0 } else { v }),
            Width::Percentage(v) => Width::Percentage(if v < 0 { 0 } else { v }),
        }
    }

    /// The pixel magnitude a drag starts from: a fixed width yields its
    /// pixel count; a stretch or percentage width has no pixel value before
    /// layout and yields zero.
    pub open spec fn spec_fixed_pixels(self) -> int {
        match self {
            Width::Fixed(v) => v as int,
            _ => 0,
        }
    }

    /// The pixel magnitude a drag starts from.
    pub fn fixed_pixels(self) -> (r: i64)
        ensures
            r == self.spec_fixed_pixels(),
    {
        match self {
            Width::Fixed(v) => v,
            _ => 0,
        }
    }
}

impl Default for Width {
    /// The default sizing policy: one equal stretch share per column.
    fn default() -> (r: Self)
        ensures
            r == Width::Stretch(1),
    {
        Width::Stretch(1)
    }
}

} // verus!

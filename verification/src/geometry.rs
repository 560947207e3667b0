//! Integer canvas geometry.
//!
//! Coordinates are whole canvas units held in an `i64`. Every operation is
//! total: a sum or difference that leaves the `i64` range stays at the bound
//! it crossed, so a value never wraps to the far side of the canvas.

use vstd::prelude::*;

verus! {

/// Whether the mathematical integer `v` is a coordinate.
pub open spec fn is_coord(v: int) -> bool {
    i64::MIN <= v <= i64::MAX
}

/// The coordinate that stands for the mathematical integer `v`: `v` itself
/// where it is a coordinate, otherwise the bound of the coordinate range
/// nearest to it.
pub open spec fn clamp_coord(v: int) -> i64 {
    if v < i64::MIN {
        i64::MIN
    } else if v > i64::MAX {
        i64::MAX
    } else {
        v as i64
    }
}

/// The value of `v` held to the closed interval from `lo` to `hi`.
pub open spec fn clamp_between(v: int, lo: int, hi: int) -> int {
    if v < lo {
        lo
    } else if v > hi {
        hi
    } else {
        v
    }
}

/// Adds two coordinates, stopping at the bounds of the coordinate range.
pub fn coord_add(a: i64, b: i64) -> (r: i64)
    ensures
        r == clamp_coord(a + b),
{
    match a.checked_add(b) {
        Some(sum) => sum,
        None => if b > 0 {
            i64::MAX
        } else {
            i64::MIN
        },
    }
}

/// Subtracts `b` from `a`, stopping at the bounds of the coordinate range.
pub fn coord_sub(a: i64, b: i64) -> (r: i64)
    ensures
        r == clamp_coord(a - b),
{
    match a.checked_sub(b) {
        Some(difference) => difference,
        None => if b < 0 {
            i64::MAX
        } else {
            i64::MIN
        },
    }
}

/// Holds `v` to the closed interval from `lo` to `hi`.
pub fn clamp(v: i64, lo: i64, hi: i64) -> (r: i64)
    requires
        lo <= hi,
    ensures
        r == clamp_between(v as int, lo as int, hi as int),
        lo <= r <= hi,
{
    if v < lo {
        lo
    } else if v > hi {
        hi
    } else {
        v
    }
}

/// A displacement on the canvas, or the extent of a rectangle
/// (`x` is the width, `y` the height).
#[derive(Clone, Copy, Debug, PartialEq, Eq, Structural)]
pub struct Vec2 {
    pub x: i64,
    pub y: i64,
}

/// A position, in canvas space or in screen space.
#[derive(Clone, Copy, Debug, PartialEq, Eq, Structural)]
pub struct Pos2 {
    pub x: i64,
    pub y: i64,
}

/// A rectangle given by its center and its extent.
#[derive(Clone, Copy, Debug, PartialEq, Eq, Structural)]
pub struct Rect {
    pub center: Pos2,
    pub size: Vec2,
}

impl Vec2 {
    /// The displacement that moves nothing.
    pub open spec fn spec_zero() -> Vec2 {
        Vec2 { x: 0, y: 0 }
    }

    /// The displacement that moves nothing.
    #[verifier::when_used_as_spec(spec_zero)]
    pub fn zero() -> (v: Vec2)
        ensures
            v == Vec2::spec_zero(),
    {
        Vec2 { x: 0, y: 0 }
    }

    /// A displacement from its two components.
    pub fn new(x: i64, y: i64) -> (v: Vec2)
        ensures
            v == (Vec2 { x, y }),
    {
        Vec2 { x, y }
    }

    /// The sum of two displacements, component by component.
    pub open spec fn spec_plus(self, other: Vec2) -> Vec2 {
        Vec2 { x: clamp_coord(self.x + other.x), y: clamp_coord(self.y + other.y) }
    }

    /// The sum of two displacements, component by component.
    #[verifier::when_used_as_spec(spec_plus)]
    pub fn plus(self, other: Vec2) -> (v: Vec2)
        ensures
            v == self.spec_plus(other),
    {
        Vec2 { x: coord_add(self.x, other.x), y: coord_add(self.y, other.y) }
    }
}

impl Pos2 {
    /// The origin.
    pub open spec fn spec_zero() -> Pos2 {
        Pos2 { x: 0, y: 0 }
    }

    /// The origin.
    #[verifier::when_used_as_spec(spec_zero)]
    pub fn zero() -> (p: Pos2)
        ensures
            p == Pos2::spec_zero(),
    {
        Pos2 { x: 0, y: 0 }
    }

    /// A position from its two coordinates.
    pub fn new(x: i64, y: i64) -> (p: Pos2)
        ensures
            p == (Pos2 { x, y }),
    {
        Pos2 { x, y }
    }

    /// This position moved by `by`.
    pub open spec fn spec_translate(self, by: Vec2) -> Pos2 {
        Pos2 { x: clamp_coord(self.x + by.x), y: clamp_coord(self.y + by.y) }
    }

    /// This position moved by `by`.
    #[verifier::when_used_as_spec(spec_translate)]
    pub fn translate(self, by: Vec2) -> (p: Pos2)
        ensures
            p == self.spec_translate(by),
    {
        Pos2 { x: coord_add(self.x, by.x), y: coord_add(self.y, by.y) }
    }

    /// This position moved against `by`.
    pub open spec fn spec_translate_back(self, by: Vec2) -> Pos2 {
        Pos2 { x: clamp_coord(self.x - by.x), y: clamp_coord(self.y - by.y) }
    }

    /// This position moved against `by`.
    #[verifier::when_used_as_spec(spec_translate_back)]
    pub fn translate_back(self, by: Vec2) -> (p: Pos2)
        ensures
            p == self.spec_translate_back(by),
    {
        Pos2 { x: coord_sub(self.x, by.x), y: coord_sub(self.y, by.y) }
    }

    /// The displacement that leads from `origin` to this position.
    pub open spec fn spec_offset_from(self, origin: Pos2) -> Vec2 {
        Vec2 { x: clamp_coord(self.x - origin.x), y: clamp_coord(self.y - origin.y) }
    }

    /// The displacement that leads from `origin` to this position.
    #[verifier::when_used_as_spec(spec_offset_from)]
    pub fn offset_from(self, origin: Pos2) -> (v: Vec2)
        ensures
            v == self.spec_offset_from(origin),
    {
        Vec2 { x: coord_sub(self.x, origin.x), y: coord_sub(self.y, origin.y) }
    }
}

impl Rect {
    /// The rectangle of extent `size` centered on `center`.
    pub fn from_center_size(center: Pos2, size: Vec2) -> (r: Rect)
        ensures
            r == (Rect { center, size }),
    {
        Rect { center, size }
    }
}

} // verus!

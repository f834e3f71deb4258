//! Exact coordinates: fractions, points and canvas rectangles.

use vstd::prelude::*;

verus! {

/// A rational number `num / den`, kept unreduced.
#[derive(Clone, Copy, Debug, PartialEq, Eq)]
pub struct Fraction {
    pub num: i128,
    pub den: i128,
}

impl Fraction {
    /// A fraction is well formed when its denominator is positive.
    pub open spec fn wf(self) -> bool {
        self.den > 0
    }

    /// The fraction is well formed and denotes the integer `v`.
    pub open spec fn is_int(self, v: int) -> bool {
        self.wf() && self.num == v * self.den
    }

    /// The number `self` denotes is at most the one `other` denotes (both well
    /// formed).
    pub open spec fn le(self, other: Fraction) -> bool {
        self.num * other.den <= other.num * self.den
    }

    /// The integer `v` over the denominator one.
    pub fn from_int(v: i64) -> (f: Fraction)
        ensures
            f.num == v,
            f.den == 1,
    {
        Fraction { num: v as i128, den: 1 }
    }
}

/// A point of the canvas with exact rational coordinates.
#[derive(Clone, Copy, Debug, PartialEq, Eq)]
pub struct Point {
    pub x: Fraction,
    pub y: Fraction,
}

impl Point {
    /// Both coordinates are well-formed fractions.
    pub open spec fn wf(self) -> bool {
        self.x.wf() && self.y.wf()
    }

    /// The point has the integer coordinates `(x, y)`, each written over the
    /// denominator one.
    pub open spec fn is_at(self, x: int, y: int) -> bool {
        &&& self.x.num == x
        &&& self.x.den == 1
        &&& self.y.num == y
        &&& self.y.den == 1
    }

    /// The point with the integer coordinates `(x, y)`.
    pub fn at(x: i64, y: i64) -> (p: Point)
        ensures
            p.is_at(x as int, y as int),
    {
        Point { x: Fraction::from_int(x), y: Fraction::from_int(y) }
    }
}

/// An axis-aligned region of the canvas, given by its horizontal extent
/// `[x_start, x_end]` and its vertical extent `[y_start, y_end]` in whole
/// canvas units.
#[derive(Clone, Copy, Debug, PartialEq, Eq)]
pub struct Rect {
    pub x_start: i32,
    pub x_end: i32,
    pub y_start: i32,
    pub y_end: i32,
}

/// The distance between two coordinates.
pub open spec fn distance(a: int, b: int) -> int {
    if a <= b {
        b - a
    } else {
        a - b
    }
}

impl Rect {
    /// The width of the region: the length of its horizontal extent.
    pub open spec fn width(self) -> int {
        distance(self.x_start as int, self.x_end as int)
    }

    /// The height of the region: the length of its vertical extent.
    pub open spec fn height(self) -> int {
        distance(self.y_start as int, self.y_end as int)
    }

    /// Moving every edge inwards by `margin` stays within the coordinate type.
    pub open spec fn spec_can_pad(self, margin: i32) -> bool {
        &&& i32::MIN <= self.x_start + margin <= i32::MAX
        &&& i32::MIN <= self.x_end - margin <= i32::MAX
        &&& i32::MIN <= self.y_start + margin <= i32::MAX
        &&& i32::MIN <= self.y_end - margin <= i32::MAX
    }

    /// Whether moving every edge inwards by `margin` stays within the
    /// coordinate type.
    #[verifier::when_used_as_spec(spec_can_pad)]
    pub fn can_pad(self, margin: i32) -> (ok: bool)
        ensures
            ok == self.spec_can_pad(margin),
    {
        self.x_start.checked_add(margin).is_some() && self.x_end.checked_sub(margin).is_some()
            && self.y_start.checked_add(margin).is_some() && self.y_end.checked_sub(
            margin,
        ).is_some()
    }

    /// The width of the region.
    pub fn w(self) -> (w: i64)
        ensures
            w == self.width(),
    {
        let start: i64 = self.x_start as i64;
        let end: i64 = self.x_end as i64;
        if start <= end {
            end - start
        } else {
            start - end
        }
    }

    /// The height of the region.
    pub fn h(self) -> (h: i64)
        ensures
            h == self.height(),
    {
        let start: i64 = self.y_start as i64;
        let end: i64 = self.y_end as i64;
        if start <= end {
            end - start
        } else {
            start - end
        }
    }

    /// The region inset by `margin` on all sides.
    pub fn pad(self, margin: i32) -> (r: Rect)
        requires
            self.can_pad(margin),
        ensures
            r.x_start == self.x_start + margin,
            r.x_end == self.x_end - margin,
            r.y_start == self.y_start + margin,
            r.y_end == self.y_end - margin,
    {
        Rect {
            x_start: self.x_start + margin,
            x_end: self.x_end - margin,
            y_start: self.y_start + margin,
            y_end: self.y_end - margin,
        }
    }
}

} // verus!

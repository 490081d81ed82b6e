//! Integer coordinate model.
//!
//! Pointer positions, capture regions and annotation shapes are kept in whole
//! pixels. Scale factors between coordinate spaces (panel points to source
//! image pixels, or the display's pixel-per-point ratio) are kept as exact
//! ratios of two integers, and applying one truncates toward zero, as the
//! front end's float-to-integer casts do.

use vstd::prelude::*;

verus! {

/// Largest coordinate magnitude the model admits; keeps every product of a
/// coordinate difference and a scale numerator far inside `i64`.
pub const COORD_BOUND: i64 = 0x4000_0000;

/// Largest numerator or denominator of a display pixel-per-point ratio.
pub const SMALL_SCALE_BOUND: u32 = 0x400;

/// Largest numerator or denominator of a `Scale`.
pub const SCALE_BOUND: u32 = 0x800_0000;

/// A position in whole pixels. The pair `(-1, -1)` is the front end's
/// sentinel for "not set yet".
#[derive(Clone, Copy, Debug, PartialEq, Eq, Structural)]
pub struct Point {
    pub x: i64,
    pub y: i64,
}

/// An exact ratio `num / den`, standing for a positive scale factor.
#[derive(Clone, Copy, Debug, PartialEq, Eq, Structural)]
pub struct Scale {
    pub num: u32,
    pub den: u32,
}

/// An axis-aligned rectangle given by its two corners, `min` componentwise
/// at most `max`.
#[derive(Clone, Copy, Debug, PartialEq, Eq, Structural)]
pub struct IRect {
    pub min: Point,
    pub max: Point,
}

pub open spec fn coord_in_range(c: int) -> bool {
    -COORD_BOUND <= c <= COORD_BOUND
}

pub open spec fn point_in_range(p: Point) -> bool {
    coord_in_range(p.x as int) && coord_in_range(p.y as int)
}

pub open spec fn scale_wf(s: Scale) -> bool {
    1 <= s.num <= SCALE_BOUND && 1 <= s.den <= SCALE_BOUND
}

/// The sentinel position `(-1, -1)`.
pub open spec fn spec_unset(p: Point) -> bool {
    p.x == -1 && p.y == -1
}

pub fn unset_point() -> (p: Point)
    ensures
        spec_unset(p),
{
    Point { x: -1, y: -1 }
}

impl Point {
    pub fn new(x: i64, y: i64) -> (p: Point)
        ensures
            p.x == x && p.y == y,
    {
        Point { x, y }
    }

    /// Whether this is the `(-1, -1)` sentinel.
    pub fn is_unset(&self) -> (r: bool)
        ensures
            r == spec_unset(*self),
    {
        self.x == -1 && self.y == -1
    }
}

/// Applying the ratio `num / den` to a difference `d`, truncating toward
/// zero: the whole-pixel counterpart of multiplying by a float factor and
/// casting the product to an integer.
pub open spec fn scale_apply(d: int, num: int, den: int) -> int
    recommends
        num >= 1,
        den >= 1,
{
    if d >= 0 {
        (d * num) / den
    } else {
        -(((-d) * num) / den)
    }
}

impl Scale {
    pub fn new(num: u32, den: u32) -> (s: Scale)
        requires
            1 <= num <= SCALE_BOUND,
            1 <= den <= SCALE_BOUND,
        ensures
            s.num == num && s.den == den,
            scale_wf(s),
    {
        Scale { num, den }
    }

    /// The identity ratio.
    pub fn one() -> (s: Scale)
        ensures
            s.num == 1 && s.den == 1,
            scale_wf(s),
    {
        Scale { num: 1, den: 1 }
    }

    /// Scales `d` by this ratio, truncating toward zero.
    pub fn apply(&self, d: i64) -> (r: i64)
        requires
            scale_wf(*self),
            -2 * COORD_BOUND <= d <= 2 * COORD_BOUND,
        ensures
            r == scale_apply(d as int, self.num as int, self.den as int),
    {
        if d >= 0 {
            proof {
                assert(d * self.num <= 2 * COORD_BOUND * SCALE_BOUND) by (nonlinear_arith)
                    requires 0 <= d <= 2 * COORD_BOUND && 1 <= self.num <= SCALE_BOUND;
                assert(0 <= (d * self.num) / (self.den as int) <= d * self.num) by (nonlinear_arith)
                    requires 0 <= d * self.num && 1 <= self.den;
            }
            let prod: u64 = (d as u64) * (self.num as u64);
            (prod / (self.den as u64)) as i64
        } else {
            let neg: u64 = (-d) as u64;
            proof {
                assert(neg * self.num <= 2 * COORD_BOUND * SCALE_BOUND) by (nonlinear_arith)
                    requires 0 <= neg <= 2 * COORD_BOUND && 1 <= self.num <= SCALE_BOUND;
                assert(0 <= (neg * self.num) / (self.den as int) <= neg * self.num) by (nonlinear_arith)
                    requires 0 <= neg * self.num && 1 <= self.den;
            }
            let prod: u64 = neg * (self.num as u64);
            -((prod / (self.den as u64)) as i64)
        }
    }
}

/// Shifts `p` by `-shift` and scales the two axes by `sx` and `sy`: the
/// conversion from panel coordinates to source-image pixel coordinates.
pub open spec fn spec_to_image_point(p: Point, shift: Point, sx: Scale, sy: Scale) -> Point {
    Point {
        x: scale_apply(p.x - shift.x, sx.num as int, sx.den as int) as i64,
        y: scale_apply(p.y - shift.y, sy.num as int, sy.den as int) as i64,
    }
}

pub fn to_image_point(p: Point, shift: Point, sx: Scale, sy: Scale) -> (r: Point)
    requires
        point_in_range(p),
        point_in_range(shift),
        scale_wf(sx),
        scale_wf(sy),
    ensures
        r == spec_to_image_point(p, shift, sx, sy),
{
    proof {
        scale_apply_bounds(p.x - shift.x, sx.num as int, sx.den as int);
        scale_apply_bounds(p.y - shift.y, sy.num as int, sy.den as int);
    }
    Point { x: sx.apply(p.x - shift.x), y: sy.apply(p.y - shift.y) }
}

/// The scaled value of a bounded difference stays inside `i64`.
pub proof fn scale_apply_bounds(d: int, num: int, den: int)
    requires
        1 <= num <= SCALE_BOUND,
        1 <= den <= SCALE_BOUND,
        -2 * COORD_BOUND <= d <= 2 * COORD_BOUND,
    ensures
        -0x400_0000_0000_0000 <= scale_apply(d, num, den) <= 0x400_0000_0000_0000,
{
    if d >= 0 {
        assert(d * num <= 2 * COORD_BOUND * SCALE_BOUND) by (nonlinear_arith)
            requires 0 <= d <= 2 * COORD_BOUND && 1 <= num <= SCALE_BOUND;
        assert(0 <= (d * num) / den <= d * num) by (nonlinear_arith)
            requires 0 <= d * num && 1 <= den;
    } else {
        assert((-d) * num <= 2 * COORD_BOUND * SCALE_BOUND) by (nonlinear_arith)
            requires 0 <= -d <= 2 * COORD_BOUND && 1 <= num <= SCALE_BOUND;
        assert(0 <= ((-d) * num) / den <= (-d) * num) by (nonlinear_arith)
            requires 0 <= (-d) * num && 1 <= den;
    }
}

/// The rectangle spanned by two arbitrary corners: componentwise minima and
/// maxima.
pub open spec fn spec_rect_from_points(a: Point, b: Point) -> IRect {
    IRect {
        min: Point {
            x: if a.x <= b.x { a.x } else { b.x },
            y: if a.y <= b.y { a.y } else { b.y },
        },
        max: Point {
            x: if a.x <= b.x { b.x } else { a.x },
            y: if a.y <= b.y { b.y } else { a.y },
        },
    }
}

impl IRect {
    /// The rectangle spanned by two arbitrary corners: componentwise minima
    /// and maxima, as the front end's rectangle-from-points does.
    pub fn from_points(a: Point, b: Point) -> (r: IRect)
        ensures
            r == spec_rect_from_points(a, b),
            r.min.x <= r.max.x && r.min.y <= r.max.y,
    {
        let min_x: i64 = if a.x <= b.x { a.x } else { b.x };
        let min_y: i64 = if a.y <= b.y { a.y } else { b.y };
        let max_x: i64 = if a.x <= b.x { b.x } else { a.x };
        let max_y: i64 = if a.y <= b.y { b.y } else { a.y };
        IRect { min: Point { x: min_x, y: min_y }, max: Point { x: max_x, y: max_y } }
    }

    /// Inclusive containment on both edges, as the front end's rectangle
    /// containment test has it.
    pub fn contains(&self, p: Point) -> (r: bool)
        ensures
            r == spec_rect_contains(*self, p),
    {
        self.min.x <= p.x && p.x <= self.max.x && self.min.y <= p.y && p.y <= self.max.y
    }

    pub fn width(&self) -> (w: i64)
        requires
            point_in_range(self.min),
            point_in_range(self.max),
        ensures
            w == self.max.x - self.min.x,
    {
        self.max.x - self.min.x
    }

    pub fn height(&self) -> (h: i64)
        requires
            point_in_range(self.min),
            point_in_range(self.max),
        ensures
            h == self.max.y - self.min.y,
    {
        self.max.y - self.min.y
    }
}

pub open spec fn spec_rect_contains(r: IRect, p: Point) -> bool {
    r.min.x <= p.x <= r.max.x && r.min.y <= p.y <= r.max.y
}

pub open spec fn rect_in_range(r: IRect) -> bool {
    point_in_range(r.min) && point_in_range(r.max)
}

} // verus!

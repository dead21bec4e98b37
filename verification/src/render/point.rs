use vstd::prelude::*;
use vstd::arithmetic::div_mod::{lemma_div_is_ordered, lemma_div_multiples_vanish, lemma_div_pos_is_pos};
use crate::shape::Size;

verus! {

/// Coordinates are fixed-point numbers with 16 fractional bits: the raw
/// value `FIXED_ONE` stands for 1.0. Unit space is `[0, FIXED_ONE]` with y
/// growing downwards; clip space is `[-FIXED_ONE, FIXED_ONE]` with y growing
/// upwards.
pub const FIXED_ONE: i64 = 0x10000;

/// Bound on caller-supplied positions, sizes and line endpoints (raw
/// fixed-point units). It exists only so that the conversions between the
/// coordinate spaces cannot overflow.
pub const COORD_LIMIT: i64 = 0x100_0000_0000;

/// Bound kept on the local vertex coordinates a shape stores; wide enough
/// for every value derived from inputs within `COORD_LIMIT`.
pub const VERTEX_LIMIT: i64 = 0x4000_0000_0000;

/// Bound on the inputs of the standalone coordinate conversions; doubling a
/// value within it cannot overflow an `i64`.
pub const CONVERT_LIMIT: i64 = 0x1000_0000_0000_0000;

pub open spec fn in_range(c: int, limit: int) -> bool {
    -limit <= c && c <= limit
}

/// `v * num / den` with the division truncated towards zero, the exact
/// meaning of the fixed-point scaling the shapes perform.
pub open spec fn scale_spec(v: int, num: int, den: int) -> int {
    let p = v * num;
    if p >= 0 {
        p / den
    } else {
        -((-p) / den)
    }
}

/// A product of bounded factors is bounded by the product of the bounds.
pub proof fn lemma_abs_mul_bound(v: int, num: int, bv: int, bn: int)
    requires
        0 <= bv,
        0 <= bn,
        -bv <= v <= bv,
        -bn <= num <= bn,
    ensures
        -(bv * bn) <= v * num <= bv * bn,
{
    assert(-(bv * bn) <= v * num <= bv * bn) by (nonlinear_arith)
        requires
            -bv <= v <= bv,
            -bn <= num <= bn,
            0 <= bv,
            0 <= bn,
    ;
}

/// Truncating towards zero can only shrink the magnitude: a scaled value is
/// bounded by the scaled bounds of its factors.
pub proof fn lemma_scale_bound(v: int, num: int, den: int, bv: int, bn: int)
    requires
        0 < den,
        0 <= bv,
        0 <= bn,
        -bv <= v <= bv,
        -bn <= num <= bn,
    ensures
        -((bv * bn) / den) <= scale_spec(v, num, den) <= (bv * bn) / den,
{
    let p = v * num;
    lemma_abs_mul_bound(v, num, bv, bn);
    lemma_div_pos_is_pos(bv * bn, den);
    if p >= 0 {
        lemma_div_pos_is_pos(p, den);
        lemma_div_is_ordered(p, bv * bn, den);
    } else {
        lemma_div_pos_is_pos(-p, den);
        lemma_div_is_ordered(-p, bv * bn, den);
    }
}

/// A scale whose denominator is `FIXED_ONE` and whose first factor is at
/// most `FIXED_ONE` in magnitude is bounded by the second factor's bound.
pub proof fn lemma_unit_scale_bound(v: int, num: int, bn: int)
    requires
        -FIXED_ONE <= v <= FIXED_ONE,
        0 <= bn,
        -bn <= num <= bn,
    ensures
        -bn <= scale_spec(v, num, FIXED_ONE as int) <= bn,
{
    let den = FIXED_ONE as int;
    lemma_scale_bound(v, num, den, FIXED_ONE as int, bn);
    lemma_div_multiples_vanish(bn, den);
}

/// `v * num / den`, truncated towards zero, computed without intermediate
/// overflow.
pub fn scale_fixed(v: i64, num: i64, den: i64) -> (r: i64)
    requires
        0 < den,
        in_range(scale_spec(v as int, num as int, den as int), 0x7FFF_FFFF_FFFF_FFFF),
    ensures
        r == scale_spec(v as int, num as int, den as int),
{
    proof {
        assert((v as int) * (num as int) <= 0x4000_0000_0000_0000_0000_0000_0000_0000int
            && -0x4000_0000_0000_0000_0000_0000_0000_0000int <= (v as int) * (num as int))
            by (nonlinear_arith)
            requires
                -0x8000_0000_0000_0000int <= v as int <= 0x7FFF_FFFF_FFFF_FFFFint,
                -0x8000_0000_0000_0000int <= num as int <= 0x7FFF_FFFF_FFFF_FFFFint,
        ;
    }
    let p: i128 = (v as i128) * (num as i128);
    if p >= 0 {
        let q: u128 = (p as u128) / (den as u128);
        q as i64
    } else {
        let q: u128 = ((-p) as u128) / (den as u128);
        -(q as i64)
    }
}

/// Whether `v * num / den`, truncated towards zero, lies within `limit`;
/// the executable check behind the scaling preconditions.
pub fn scale_within(v: i64, num: i64, den: i64, limit: i64) -> (r: bool)
    requires
        0 < den,
        0 <= limit,
    ensures
        r == in_range(scale_spec(v as int, num as int, den as int), limit as int),
{
    proof {
        assert((v as int) * (num as int) <= 0x4000_0000_0000_0000_0000_0000_0000_0000int
            && -0x4000_0000_0000_0000_0000_0000_0000_0000int <= (v as int) * (num as int))
            by (nonlinear_arith)
            requires
                -0x8000_0000_0000_0000int <= v as int <= 0x7FFF_FFFF_FFFF_FFFFint,
                -0x8000_0000_0000_0000int <= num as int <= 0x7FFF_FFFF_FFFF_FFFFint,
        ;
    }
    let p: i128 = (v as i128) * (num as i128);
    let mag: u128 = if p >= 0 {
        p as u128
    } else {
        (-p) as u128
    };
    let q: u128 = mag / (den as u128);
    q <= limit as u128
}

/// The two point conversions cancel: a unit-space point sent to clip
/// space and brought back (as `Point2D::from_point3` computes it) is
/// itself — the halving loses nothing, since doubled values are even.
pub proof fn lemma_point_clip_round_trip(p: Point2D, r: Point3D)
    requires
        point2_in_range(p, CONVERT_LIMIT),
        is_point_clip(r, p),
    ensures
        scale_spec(r.x + FIXED_ONE, 1, 2) == p.x,
        scale_spec(FIXED_ONE - r.y, 1, 2) == p.y,
{
    lemma_half_of_double(p.x as int);
    lemma_half_of_double(p.y as int);
}

/// Doubling and truncated halving cancel on either sign.
proof fn lemma_half_of_double(x: int)
    ensures
        scale_spec(2 * x, 1, 2) == x,
{
    if x >= 0 {
        lemma_div_multiples_vanish(x, 2);
    } else {
        lemma_div_multiples_vanish(-x, 2);
    }
}

/// A 2D point or vector; in unit space unless said otherwise.
#[derive(Clone, Copy, PartialEq, Eq, Structural, Debug)]
pub struct Point2D {
    pub x: i64,
    pub y: i64,
}

/// A 3D point or vector in clip space; what a vertex position holds.
#[derive(Clone, Copy, PartialEq, Eq, Structural, Debug)]
pub struct Point3D {
    pub x: i64,
    pub y: i64,
    pub z: i64,
}

pub open spec fn point2_in_range(p: Point2D, limit: i64) -> bool {
    in_range(p.x as int, limit as int) && in_range(p.y as int, limit as int)
}

pub open spec fn point3_in_range(p: Point3D, limit: i64) -> bool {
    in_range(p.x as int, limit as int) && in_range(p.y as int, limit as int) && in_range(p.z as int, limit as int)
}

/// `r` is the unit-space point `p` converted to clip space:
/// `x' = 2x - 1, y' = 1 - 2y`.
pub open spec fn is_point_clip(r: Point3D, p: Point2D) -> bool {
    &&& r.x == 2 * p.x - FIXED_ONE
    &&& r.y == FIXED_ONE - 2 * p.y
    &&& r.z == 0
}

/// `r` is the unit-space vector (size delta) `p` converted to clip space:
/// `x' = 2x, y' = -2y`.
pub open spec fn is_vector_clip(r: Point3D, p: Point2D) -> bool {
    &&& r.x == 2 * p.x
    &&& r.y == -2 * p.y
    &&& r.z == 0
}

/// `r` is the size `s` converted to a clip-space delta.
pub open spec fn is_size_clip(r: Point3D, s: Size) -> bool {
    &&& r.x == 2 * s.width
    &&& r.y == -2 * s.height
    &&& r.z == 0
}

/// The clip-space delta of a unit-space vector, as a value; exact whenever
/// the doubled components fit an `i64`.
pub open spec fn clip_vector_spec(p: Point2D) -> Point3D {
    Point3D { x: (2 * p.x) as i64, y: (-2 * p.y) as i64, z: 0 }
}

/// The clip-space image of a unit-space point, as a value; exact whenever
/// the converted components fit an `i64`.
pub open spec fn clip_point_spec(p: Point2D) -> Point3D {
    Point3D { x: (2 * p.x - FIXED_ONE) as i64, y: (FIXED_ONE - 2 * p.y) as i64, z: 0 }
}

/// The component-wise sum of two points, as a value; exact whenever the
/// sums fit an `i64`.
pub open spec fn point2_sum(a: Point2D, b: Point2D) -> Point2D {
    Point2D { x: (a.x + b.x) as i64, y: (a.y + b.y) as i64 }
}

pub open spec fn is_sum3(r: Point3D, a: Point3D, b: Point3D) -> bool {
    &&& r.x == a.x + b.x
    &&& r.y == a.y + b.y
    &&& r.z == a.z + b.z
}

impl Point2D {
    pub fn origin() -> (r: Self)
        ensures
            r.x == 0 && r.y == 0,
    {
        Point2D { x: 0, y: 0 }
    }

    /// Converts a unit-space vector to a clip-space delta.
    pub fn to_3d_vector(self) -> (r: Point3D)
        requires
            point2_in_range(self, CONVERT_LIMIT),
        ensures
            is_vector_clip(r, self),
    {
        Point3D { x: 2 * self.x, y: -(2 * self.y), z: 0 }
    }

    /// Converts a clip-space point back to unit space:
    /// `x = (x' + 1) / 2, y = (1 - y') / 2`, truncated towards zero.
    pub fn from_point3(point: Point3D) -> (r: Self)
        requires
            point3_in_range(point, CONVERT_LIMIT),
        ensures
            r.x == scale_spec(point.x + FIXED_ONE, 1, 2),
            r.y == scale_spec(FIXED_ONE - point.y, 1, 2),
    {
        proof {
            lemma_scale_bound(point.x + FIXED_ONE, 1, 2, CONVERT_LIMIT + FIXED_ONE, 1);
            lemma_scale_bound(FIXED_ONE - point.y, 1, 2, CONVERT_LIMIT + FIXED_ONE, 1);
        }
        Point2D { x: scale_fixed(point.x + FIXED_ONE, 1, 2), y: scale_fixed(FIXED_ONE - point.y, 1, 2) }
    }

    /// Reads a size as a point, component for component.
    pub fn from_size(size: Size) -> (r: Self)
        ensures
            r.x == size.width && r.y == size.height,
    {
        Point2D { x: size.width, y: size.height }
    }

    /// Component-wise sum.
    pub fn add(self, other: Self) -> (r: Self)
        requires
            point2_in_range(self, CONVERT_LIMIT),
            point2_in_range(other, CONVERT_LIMIT),
        ensures
            r.x == self.x + other.x,
            r.y == self.y + other.y,
    {
        Point2D { x: self.x + other.x, y: self.y + other.y }
    }

    /// Component-wise fixed-point product.
    pub fn mul(self, other: Self) -> (r: Self)
        requires
            point2_in_range(self, 0x7FFF_FFFF),
            point2_in_range(other, 0x7FFF_FFFF),
        ensures
            r.x == scale_spec(self.x as int, other.x as int, FIXED_ONE as int),
            r.y == scale_spec(self.y as int, other.y as int, FIXED_ONE as int),
    {
        proof {
            lemma_scale_bound(self.x as int, other.x as int, FIXED_ONE as int, 0x7FFF_FFFF, 0x7FFF_FFFF);
            lemma_scale_bound(self.y as int, other.y as int, FIXED_ONE as int, 0x7FFF_FFFF, 0x7FFF_FFFF);
        }
        Point2D {
            x: scale_fixed(self.x, other.x, FIXED_ONE),
            y: scale_fixed(self.y, other.y, FIXED_ONE),
        }
    }
}

impl Point3D {
    pub fn origin() -> (r: Self)
        ensures
            r.x == 0 && r.y == 0 && r.z == 0,
    {
        Point3D { x: 0, y: 0, z: 0 }
    }

    /// Converts a unit-space vector (a position offset) to a clip-space
    /// delta; translations handed to the arenas go through this.
    pub fn wgpu_vector(point: Point2D) -> (r: Self)
        requires
            point2_in_range(point, CONVERT_LIMIT),
        ensures
            is_vector_clip(r, point),
    {
        Point3D { x: 2 * point.x, y: -(2 * point.y), z: 0 }
    }

    /// Converts a unit-space point to a clip-space point.
    pub fn from_point(point: Point2D) -> (r: Self)
        requires
            point2_in_range(point, CONVERT_LIMIT),
        ensures
            is_point_clip(r, point),
    {
        Point3D { x: 2 * point.x - FIXED_ONE, y: FIXED_ONE - 2 * point.y, z: 0 }
    }

    /// Converts a size to a clip-space delta.
    pub fn from_size(size: Size) -> (r: Self)
        requires
            in_range(size.width as int, CONVERT_LIMIT as int),
            in_range(size.height as int, CONVERT_LIMIT as int),
        ensures
            is_size_clip(r, size),
    {
        Point3D { x: 2 * size.width, y: -(2 * size.height), z: 0 }
    }

    /// Component-wise sum.
    pub fn add(self, other: Self) -> (r: Self)
        requires
            point3_in_range(self, CONVERT_LIMIT),
            point3_in_range(other, CONVERT_LIMIT),
        ensures
            is_sum3(r, self, other),
    {
        Point3D { x: self.x + other.x, y: self.y + other.y, z: self.z + other.z }
    }
}

} // verus!

use vstd::prelude::*;
use vstd::arithmetic::div_mod::{lemma_div_is_ordered, lemma_div_multiples_vanish, lemma_div_pos_is_pos};
use crate::render::point::{scale_fixed, scale_spec, FIXED_ONE};

verus! {

/// A linear RGB color; each channel is a fixed-point value with
/// `FIXED_ONE` standing for full intensity.
#[derive(Clone, Copy, PartialEq, Eq, Structural, Debug)]
pub struct Color {
    pub r: i64,
    pub g: i64,
    pub b: i64,
}

/// A channel holds a value in `[0, FIXED_ONE]`.
pub open spec fn color_in_range(c: Color) -> bool {
    &&& 0 <= c.r <= FIXED_ONE
    &&& 0 <= c.g <= FIXED_ONE
    &&& 0 <= c.b <= FIXED_ONE
}

/// The channel value an 8-bit component maps to: `v / 255` in fixed point,
/// truncated towards zero.
pub open spec fn channel_of_u8(v: u8) -> int {
    scale_spec(v as int, FIXED_ONE as int, 255)
}

impl Color {
    /// Builds a color from 8-bit components, scaling each into
    /// `[0, FIXED_ONE]`.
    pub fn rgb(r: u8, g: u8, b: u8) -> (c: Self)
        ensures
            c.r == channel_of_u8(r),
            c.g == channel_of_u8(g),
            c.b == channel_of_u8(b),
            color_in_range(c),
    {
        proof {
            lemma_channel_in_range(r);
            lemma_channel_in_range(g);
            lemma_channel_in_range(b);
        }
        Color {
            r: scale_fixed(r as i64, FIXED_ONE, 255),
            g: scale_fixed(g as i64, FIXED_ONE, 255),
            b: scale_fixed(b as i64, FIXED_ONE, 255),
        }
    }

    pub fn red() -> (c: Self)
        ensures
            c == (Color { r: FIXED_ONE, g: 0, b: 0 }),
    {
        Color { r: FIXED_ONE, g: 0, b: 0 }
    }

    pub fn green() -> (c: Self)
        ensures
            c == (Color { r: 0, g: FIXED_ONE, b: 0 }),
    {
        Color { r: 0, g: FIXED_ONE, b: 0 }
    }

    pub fn blue() -> (c: Self)
        ensures
            c == (Color { r: 0, g: 0, b: FIXED_ONE }),
    {
        Color { r: 0, g: 0, b: FIXED_ONE }
    }

    pub fn black() -> (c: Self)
        ensures
            c == (Color { r: 0, g: 0, b: 0 }),
    {
        Color { r: 0, g: 0, b: 0 }
    }
}

impl Default for Color {
    /// The default color is white: every channel at full intensity.
    fn default() -> (c: Self)
        ensures
            c == (Color { r: FIXED_ONE, g: FIXED_ONE, b: FIXED_ONE }),
    {
        Color { r: FIXED_ONE, g: FIXED_ONE, b: FIXED_ONE }
    }
}

/// An 8-bit component scales into `[0, FIXED_ONE]`.
pub proof fn lemma_channel_in_range(v: u8)
    ensures
        0 <= channel_of_u8(v) <= FIXED_ONE,
{
    let p = (v as int) * (FIXED_ONE as int);
    crate::render::point::lemma_abs_mul_bound(v as int, FIXED_ONE as int, 255, FIXED_ONE as int);
    vstd::arithmetic::mul::lemma_mul_nonnegative(v as int, FIXED_ONE as int);
    lemma_div_pos_is_pos(p, 255);
    lemma_div_is_ordered(p, 255 * (FIXED_ONE as int), 255);
    lemma_div_multiples_vanish(FIXED_ONE as int, 255);
}

} // verus!

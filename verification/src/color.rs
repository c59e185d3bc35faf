//! RGB color values and the saturating per-channel arithmetic used to blend
//! light contributions onto one LED.

use vstd::prelude::*;

verus! {

/// One LED color: three 8-bit channels.
#[derive(Clone, Copy, PartialEq, Eq, Structural, Debug)]
pub struct Rgb8 {
    pub r: u8,
    pub g: u8,
    pub b: u8,
}

/// Addition of two channel values, capped at the maximum intensity.
pub open spec fn sat_add_channel(a: u8, b: u8) -> u8 {
    if a + b > 255 {
        255u8
    } else {
        (a + b) as u8
    }
}

/// Per-channel saturating addition of two colors.
pub open spec fn spec_add_rgb(a: Rgb8, b: Rgb8) -> Rgb8 {
    Rgb8 {
        r: sat_add_channel(a.r, b.r),
        g: sat_add_channel(a.g, b.g),
        b: sat_add_channel(a.b, b.b),
    }
}

impl Rgb8 {
    pub fn new(r: u8, g: u8, b: u8) -> (c: Rgb8)
        ensures
            c == (Rgb8 { r, g, b }),
    {
        Rgb8 { r, g, b }
    }
}

/// Accumulates `b` onto `a`, clamping each channel at the maximum
/// representable intensity instead of wrapping.
pub fn add_rgb_saturating(a: &mut Rgb8, b: Rgb8)
    ensures
        *final(a) == spec_add_rgb(*old(a), b),
{
    a.r = a.r.saturating_add(b.r);
    a.g = a.g.saturating_add(b.g);
    a.b = a.b.saturating_add(b.b);
}

/// Saturating addition never exceeds the maximum channel value, however the
/// two inputs were produced.
pub proof fn lemma_sat_add_bounded(a: Rgb8, b: Rgb8)
    ensures
        spec_add_rgb(a, b).r <= 255,
        spec_add_rgb(a, b).g <= 255,
        spec_add_rgb(a, b).b <= 255,
{
}

/// Saturating addition is associative, so a chain of accumulations onto one
/// LED gives the same color no matter how it is bracketed.
pub proof fn lemma_sat_add_assoc(a: Rgb8, b: Rgb8, c: Rgb8)
    ensures
        spec_add_rgb(spec_add_rgb(a, b), c) == spec_add_rgb(a, spec_add_rgb(b, c)),
{
}

/// Adding the zero color changes nothing.
pub proof fn lemma_sat_add_black(a: Rgb8)
    ensures
        spec_add_rgb(a, Rgb8 { r: 0u8, g: 0u8, b: 0u8 }) == a,
{
}

} // verus!

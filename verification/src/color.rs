//! Normalised RGBA colors as they cross the C boundary, and their validation.
use crate::errors::{result_is, ColorChannel, RatexError, RatexErrorView};
use crate::float_bits::{
    f32_bits_in_unit_interval, f32_bits_is_finite, f32_in_unit_interval, f32_value, is_finite,
};
use vstd::prelude::*;

verus! {

/// A color in normalised RGBA; each channel is the bit pattern of a
/// single-precision float.
#[derive(Clone, Copy, Debug, PartialEq, Eq, Structural)]
pub struct RatexColor {
    pub r: u32,
    pub g: u32,
    pub b: u32,
    pub a: u32,
}

impl View for RatexColor {
    type V = RatexColor;

    open spec fn view(&self) -> RatexColor {
        *self
    }
}

/// Bit pattern of one.
pub const ONE_BITS: u32 = 0x3f80_0000;

impl RatexColor {
    /// Opaque black: `(0, 0, 0, 1)`.
    pub open spec fn spec_black() -> RatexColor {
        RatexColor { r: 0, g: 0, b: 0, a: ONE_BITS }
    }

    /// Fully transparent black: `(0, 0, 0, 0)`.
    pub open spec fn spec_transparent() -> RatexColor {
        RatexColor { r: 0, g: 0, b: 0, a: 0 }
    }

    /// Opaque black: `(0, 0, 0, 1)`.
    pub fn black() -> (c: RatexColor)
        ensures
            c == RatexColor::spec_black(),
    {
        RatexColor { r: 0, g: 0, b: 0, a: ONE_BITS }
    }

    /// Fully transparent black: `(0, 0, 0, 0)`.
    pub fn transparent() -> (c: RatexColor)
        ensures
            c == RatexColor::spec_transparent(),
    {
        RatexColor { r: 0, g: 0, b: 0, a: 0 }
    }
}

/// The error a single channel gives, if any: not finite first, then out of `[0, 1]`.
pub open spec fn channel_error(channel: ColorChannel, bits: u32) -> Option<RatexErrorView> {
    if !is_finite(f32_value(bits)) {
        Some(RatexErrorView::ColorNotFinite(channel, bits))
    } else if !f32_in_unit_interval(bits) {
        Some(RatexErrorView::ColorOutOfRange(channel, bits))
    } else {
        None
    }
}

/// The error of the first failing channel, in the order r, g, b, a.
pub open spec fn color_error(c: RatexColor) -> Option<RatexErrorView> {
    if channel_error(ColorChannel::R, c.r) is Some {
        channel_error(ColorChannel::R, c.r)
    } else if channel_error(ColorChannel::G, c.g) is Some {
        channel_error(ColorChannel::G, c.g)
    } else if channel_error(ColorChannel::B, c.b) is Some {
        channel_error(ColorChannel::B, c.b)
    } else {
        channel_error(ColorChannel::A, c.a)
    }
}

/// Every channel is a finite float in `[0, 1]`.
pub open spec fn color_is_valid(c: RatexColor) -> bool {
    &&& f32_in_unit_interval(c.r)
    &&& f32_in_unit_interval(c.g)
    &&& f32_in_unit_interval(c.b)
    &&& f32_in_unit_interval(c.a)
}

/// What [`validate_color`] answers.
pub open spec fn spec_validate_color(c: RatexColor) -> Result<RatexColor, RatexErrorView> {
    match color_error(c) {
        Some(e) => Err(e),
        None => Ok(c),
    }
}

fn validate_component(channel: ColorChannel, bits: u32) -> (res: Result<(), RatexError>)
    ensures
        match channel_error(channel, bits) {
            Some(e) => res matches Err(x) && x@ == e,
            None => res is Ok,
        },
{
    if !f32_bits_is_finite(bits) {
        return Err(RatexError::ColorNotFinite(channel, bits));
    }
    if !f32_bits_in_unit_interval(bits) {
        return Err(RatexError::ColorOutOfRange(channel, bits));
    }
    Ok(())
}

/// Checks that every channel is a finite float in `[0, 1]`, reporting the first
/// channel (r, g, b, a) that is not; a valid color is handed back unchanged.
pub fn validate_color(color: RatexColor) -> (res: Result<RatexColor, RatexError>)
    ensures
        result_is(res, spec_validate_color(color)),
        res is Ok <==> color_is_valid(color),
{
    validate_component(ColorChannel::R, color.r)?;
    validate_component(ColorChannel::G, color.g)?;
    validate_component(ColorChannel::B, color.b)?;
    validate_component(ColorChannel::A, color.a)?;
    Ok(color)
}

} // verus!

//! Measures and colors of the `iced_core` toolkit that widget models carry.
//!
//! These values are opaque here: the models store and hand them on.
use vstd::prelude::*;
use iced_core::{Color, Length, Padding, Pixels};

verus! {

#[verifier::external_type_specification]
#[verifier::external_body]
pub struct ExLength(Length);

#[verifier::external_type_specification]
#[verifier::external_body]
pub struct ExPadding(Padding);

#[verifier::external_type_specification]
#[verifier::external_body]
pub struct ExColor(Color);

#[verifier::external_type_specification]
#[verifier::external_body]
pub struct ExPixels(Pixels);

/// What `Color::from_rgb8` returns for the given channels (opaque color).
pub uninterp spec fn rgb8(r: u8, g: u8, b: u8) -> Color;

/// What `Length::from(units)` returns: a fixed length of that many pixels.
pub uninterp spec fn fixed_length(units: u32) -> Length;

/// What `Pixels::from(units)` returns: that many pixels.
pub uninterp spec fn fixed_pixels(units: u32) -> Pixels;

/// What `Padding::from([vertical, horizontal])` returns.
pub uninterp spec fn padding_vh(vertical: u16, horizontal: u16) -> Padding;

/// `Length::Fill`. Nothing is stated of the opaque value.
#[verifier::external_body]
pub(crate) fn length_fill() -> Length {
    Length::Fill
}

/// `Length::from(units)`: `Length::Fixed` of `units` pixels.
#[verifier::external_body]
pub(crate) fn length_from_units(units: u32) -> (l: Length)
    ensures
        l == fixed_length(units),
{
    Length::from(units)
}

/// `Pixels::from(units)`: `units` pixels.
#[verifier::external_body]
pub(crate) fn pixels_from_units(units: u32) -> (p: Pixels)
    ensures
        p == fixed_pixels(units),
{
    Pixels::from(units)
}

/// `Length::Shrink`. Nothing is stated of the opaque value.
#[verifier::external_body]
pub(crate) fn length_shrink() -> Length {
    Length::Shrink
}

/// `Padding::ZERO`. Nothing is stated of the opaque value.
#[verifier::external_body]
pub(crate) fn padding_zero() -> Padding {
    Padding::ZERO
}

/// `Color::TRANSPARENT`. Nothing is stated of the opaque value.
#[verifier::external_body]
pub(crate) fn color_transparent() -> Color {
    Color::TRANSPARENT
}

/// `Color::from_rgb8`: an opaque color named by its three channels.
#[verifier::external_body]
pub(crate) fn color_from_rgb8(r: u8, g: u8, b: u8) -> (c: Color)
    ensures
        c == rgb8(r, g, b),
{
    Color::from_rgb8(r, g, b)
}

/// `Padding::from([vertical, horizontal])`: the same padding on top and
/// bottom, and on left and right.
#[verifier::external_body]
pub(crate) fn padding_from_vh(vertical: u16, horizontal: u16) -> (p: Padding)
    ensures
        p == padding_vh(vertical, horizontal),
{
    Padding::from([vertical, horizontal])
}

} // verus!

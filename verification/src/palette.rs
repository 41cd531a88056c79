//! Color helpers of the SoryOS palette.
use vstd::prelude::*;
use iced_core::Color;
use crate::measure::{color_from_rgb8, rgb8};

verus! {

/// The color written `0xRRGGBB`.
pub open spec fn hex_color(hex: u32) -> Color {
    rgb8(((hex >> 16) & 0xff) as u8, ((hex >> 8) & 0xff) as u8, (hex & 0xff) as u8)
}

/// An opaque color from its hexadecimal `0xRRGGBB` form.
pub fn rgb(hex: u32) -> (r: Color)
    ensures
        r == hex_color(hex),
{
    let red: u8 = ((hex >> 16) & 0xff) as u8;
    let green: u8 = ((hex >> 8) & 0xff) as u8;
    let blue: u8 = (hex & 0xff) as u8;
    color_from_rgb8(red, green, blue)
}

/// The colors of file types.
pub struct FileColors;

impl FileColors {
    /// PDF (red).
    pub fn pdf() -> (r: Color)
        ensures
            r == hex_color(0xef4444),
    {
        rgb(0xef4444)
    }

    /// Text document (light blue).
    pub fn document() -> (r: Color)
        ensures
            r == hex_color(0x3b82f6),
    {
        rgb(0x3b82f6)
    }

    /// Image (green).
    pub fn image() -> (r: Color)
        ensures
            r == hex_color(0x22c55e),
    {
        rgb(0x22c55e)
    }

    /// Audio (violet).
    pub fn audio() -> (r: Color)
        ensures
            r == hex_color(0x8b5cf6),
    {
        rgb(0x8b5cf6)
    }

    /// Video (pink).
    pub fn video() -> (r: Color)
        ensures
            r == hex_color(0xec4899),
    {
        rgb(0xec4899)
    }

    /// Archive (orange).
    pub fn archive() -> (r: Color)
        ensures
            r == hex_color(0xf59e0b),
    {
        rgb(0xf59e0b)
    }

    /// Script or code (cyan).
    pub fn code() -> (r: Color)
        ensures
            r == hex_color(0x06b6d4),
    {
        rgb(0x06b6d4)
    }

    /// Folder (blue).
    pub fn folder() -> (r: Color)
        ensures
            r == hex_color(0x3b82f6),
    {
        rgb(0x3b82f6)
    }

    /// Unknown (gray).
    pub fn unknown() -> (r: Color)
        ensures
            r == hex_color(0x6b7280),
    {
        rgb(0x6b7280)
    }
}

} // verus!

//! Modern dividers: a thin line, across or down.
use vstd::prelude::*;
use iced_core::Pixels;
use crate::measure::{fixed_pixels, pixels_from_units};

verus! {

/// A divider: horizontal unless vertical, one pixel thick and as long as
/// its spacing (8 unless set).
pub struct ModernDivider {
    pub vertical: bool,
    pub spacing: Pixels,
}

impl ModernDivider {
    /// A horizontal divider 8 long.
    pub fn new() -> (r: Self)
        ensures
            !r.vertical,
            r.spacing == fixed_pixels(8),
    {
        ModernDivider { vertical: false, spacing: pixels_from_units(8) }
    }

    pub fn vertical(self, vertical: bool) -> (r: Self)
        ensures
            r.vertical == vertical,
            r.spacing == self.spacing,
    {
        ModernDivider { vertical, ..self }
    }

    /// Sets the divider's length.
    pub fn spacing(self, spacing: Pixels) -> (r: Self)
        ensures
            r.vertical == self.vertical,
            r.spacing == spacing,
    {
        ModernDivider { spacing, ..self }
    }

    /// The divider's width and height: one pixel across its direction, its
    /// length along it.
    pub fn size(&self) -> (r: (Pixels, Pixels))
        ensures
            self.vertical ==> r == (fixed_pixels(1), self.spacing),
            !self.vertical ==> r == (self.spacing, fixed_pixels(1)),
    {
        let one = pixels_from_units(1);
        if self.vertical {
            (one, self.spacing)
        } else {
            (self.spacing, one)
        }
    }
}

} // verus!

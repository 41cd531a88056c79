//! Modern skeletons: placeholder lines shown while content loads.
use vstd::prelude::*;
use iced_core::Pixels;
use crate::measure::{fixed_pixels, pixels_from_units};

verus! {

/// A skeleton: the width and height of each placeholder line (100 by 12
/// unless set), whether it is rounded, and how many lines it has (one unless
/// set).
pub struct ModernSkeleton {
    pub width: Option<Pixels>,
    pub height: Option<Pixels>,
    pub rounded: bool,
    pub lines: usize,
}

impl ModernSkeleton {
    /// A single square-cornered line of the default size.
    pub fn new() -> (r: Self)
        ensures
            r.width is None,
            r.height is None,
            !r.rounded,
            r.lines == 1,
    {
        ModernSkeleton { width: None, height: None, rounded: false, lines: 1 }
    }

    pub fn width(self, width: Pixels) -> (r: Self)
        ensures
            r == (ModernSkeleton { width: Some(width), ..self }),
    {
        ModernSkeleton { width: Some(width), ..self }
    }

    pub fn height(self, height: Pixels) -> (r: Self)
        ensures
            r == (ModernSkeleton { height: Some(height), ..self }),
    {
        ModernSkeleton { height: Some(height), ..self }
    }

    pub fn rounded(self, rounded: bool) -> (r: Self)
        ensures
            r == (ModernSkeleton { rounded, ..self }),
    {
        ModernSkeleton { rounded, ..self }
    }

    pub fn lines(self, lines: usize) -> (r: Self)
        ensures
            r == (ModernSkeleton { lines, ..self }),
    {
        ModernSkeleton { lines, ..self }
    }

    /// The placeholder lines, stacked: as many as the skeleton has, each of
    /// its width and height, 100 by 12 where they are not set.
    pub fn placeholders(&self) -> (r: Vec<(Pixels, Pixels)>)
        ensures
            r@.len() == self.lines,
            forall|i: int| 0 <= i < r@.len() ==> #[trigger] r@[i] == (
                match self.width {
                    Some(w) => w,
                    None => fixed_pixels(100),
                },
                match self.height {
                    Some(h) => h,
                    None => fixed_pixels(12),
                },
            ),
    {
        let w = match self.width {
            Some(w) => w,
            None => pixels_from_units(100),
        };
        let h = match self.height {
            Some(h) => h,
            None => pixels_from_units(12),
        };
        let mut out: Vec<(Pixels, Pixels)> = Vec::new();
        let mut i: usize = 0;
        while i < self.lines
            invariant
                i <= self.lines,
                out@.len() == i,
                forall|j: int| 0 <= j < i ==> #[trigger] out@[j] == (w, h),
            decreases self.lines - i,
        {
            out.push((w, h));
            i = i + 1;
        }
        out
    }
}

} // verus!

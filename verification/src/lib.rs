//! Style engine and widget models of the SoryOS design system.
use vstd::prelude::*;

pub mod measure;
pub mod palette;
pub mod text;
pub mod design;
pub mod layout;
pub mod style;
pub mod widget;

verus! {
} // verus!

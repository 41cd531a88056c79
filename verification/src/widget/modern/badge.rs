//! Badge variants.
use vstd::prelude::*;

verus! {

/// Badge color variants.
#[derive(Debug, Clone, Copy, PartialEq, Eq, Structural)]
pub enum BadgeVariant {
    Primary,
    Success,
    Warning,
    Error,
    Info,
    Neutral,
}

impl Default for BadgeVariant {
    fn default() -> (r: Self)
        ensures
            r == BadgeVariant::Neutral,
    {
        BadgeVariant::Neutral
    }
}

} // verus!

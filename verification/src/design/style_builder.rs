//! Semantic colors resolved against the palette of a mode.
use vstd::prelude::*;
use iced_core::Color;
use super::color::{dark, dark_palette, light, light_palette, Palette};

verus! {

/// The concrete colors of the semantic roles in one mode.
#[derive(Debug, Clone, Copy)]
pub struct SemanticColorResolver {
    pub primary: Color,
    pub primary_bright: Color,
    pub primary_light: Color,
    pub primary_dark: Color,
    pub background: Color,
    pub surface: Color,
    pub elevated: Color,
    pub modal: Color,
    pub text: Color,
    pub text_secondary: Color,
    pub text_on_accent: Color,
    pub border: Color,
    pub border_active: Color,
    pub success: Color,
    pub warning: Color,
    pub error: Color,
    pub info: Color,
}

/// The roles' colors taken from a palette: the primary shades, the neutral
/// steps 0, 100, 200 and 300 for background, surface, elevated and modal
/// surfaces, step 950 for text, 500 for secondary text, 0 for text on the
/// accent, 300 for borders, the primary color for active borders, and the
/// status colors.
pub open spec fn resolved_from(r: SemanticColorResolver, p: Palette) -> bool {
    &&& r.primary == p.primary.base
    &&& r.primary_bright == p.primary.bright
    &&& r.primary_light == p.primary.light
    &&& r.primary_dark == p.primary.dark
    &&& r.background == p.neutral.step_0
    &&& r.surface == p.neutral.step_100
    &&& r.elevated == p.neutral.step_200
    &&& r.modal == p.neutral.step_300
    &&& r.text == p.neutral.step_950
    &&& r.text_secondary == p.neutral.step_500
    &&& r.text_on_accent == p.neutral.step_0
    &&& r.border == p.neutral.step_300
    &&& r.border_active == p.primary.base
    &&& r.success == p.status.success
    &&& r.warning == p.status.warning
    &&& r.error == p.status.error
    &&& r.info == p.status.info
}

fn from_palette(p: &Palette) -> (r: SemanticColorResolver)
    ensures
        resolved_from(r, *p),
{
    SemanticColorResolver {
        primary: p.primary.base,
        primary_bright: p.primary.bright,
        primary_light: p.primary.light,
        primary_dark: p.primary.dark,
        background: p.neutral.step_0,
        surface: p.neutral.step_100,
        elevated: p.neutral.step_200,
        modal: p.neutral.step_300,
        text: p.neutral.step_950,
        text_secondary: p.neutral.step_500,
        text_on_accent: p.neutral.step_0,
        border: p.neutral.step_300,
        border_active: p.primary.base,
        success: p.status.success,
        warning: p.status.warning,
        error: p.status.error,
        info: p.status.info,
    }
}

impl SemanticColorResolver {
    /// The roles' colors in dark mode.
    pub fn dark() -> (r: Self)
        ensures
            resolved_from(r, dark_palette()),
    {
        let p = dark();
        from_palette(&p)
    }

    /// The roles' colors in light mode.
    pub fn light() -> (r: Self)
        ensures
            resolved_from(r, light_palette()),
    {
        let p = light();
        from_palette(&p)
    }
}

} // verus!

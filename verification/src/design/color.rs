//! The color palettes of the design system and semantic color roles.
use vstd::prelude::*;
use iced_core::Color;
use crate::measure::color_transparent;
use crate::palette::{hex_color, rgb};

verus! {

/// The complete set of colors of one mode (dark or light).
#[derive(Debug, Clone, Copy, PartialEq)]
pub struct Palette {
    pub primary: PrimaryPalette,
    pub neutral: NeutralPalette,
    pub accent: AccentPalette,
    pub status: StatusPalette,
}

#[derive(Debug, Clone, Copy, PartialEq)]
pub struct PrimaryPalette {
    pub base: Color,
    pub bright: Color,
    pub light: Color,
    pub dark: Color,
    pub muted: Color,
}

#[derive(Debug, Clone, Copy, PartialEq)]
pub struct NeutralPalette {
    pub step_0: Color,
    pub step_50: Color,
    pub step_100: Color,
    pub step_200: Color,
    pub step_300: Color,
    pub step_400: Color,
    pub step_500: Color,
    pub step_600: Color,
    pub step_700: Color,
    pub step_800: Color,
    pub step_900: Color,
    pub step_950: Color,
}

#[derive(Debug, Clone, Copy, PartialEq)]
pub struct AccentPalette {
    pub blue: Color,
    pub purple: Color,
    pub green: Color,
    pub orange: Color,
    pub red: Color,
    pub cyan: Color,
    pub pink: Color,
    pub yellow: Color,
    pub teal: Color,
}

#[derive(Debug, Clone, Copy, PartialEq)]
pub struct StatusPalette {
    pub success: Color,
    pub warning: Color,
    pub error: Color,
    pub info: Color,
    pub pending: Color,
}

/// A color role, resolved against a palette.
#[derive(Debug, Clone, Copy, PartialEq)]
pub enum SemanticColor {
    Primary,
    PrimaryBright,
    PrimaryLight,
    PrimaryDark,
    PrimaryMuted,
    Background,
    Surface,
    Elevated,
    Modal,
    Text,
    TextSecondary,
    TextMuted,
    TextOnAccent,
    Border,
    BorderActive,
    BorderSubtle,
    Success,
    Warning,
    Error,
    Info,
    Pending,
    AccentBlue,
    AccentPurple,
    AccentGreen,
    AccentOrange,
    AccentRed,
    AccentCyan,
    AccentPink,
    Transparent,
    Custom(Color),
}

impl SemanticColor {
    /// The palette color of this role. `Transparent` gives `Color::TRANSPARENT`.
    pub fn resolve(&self, palette: &Palette) -> (r: Color)
        ensures
            *self == SemanticColor::Primary ==> r == palette.primary.base,
            *self == SemanticColor::PrimaryBright ==> r == palette.primary.bright,
            *self == SemanticColor::PrimaryLight ==> r == palette.primary.light,
            *self == SemanticColor::PrimaryDark ==> r == palette.primary.dark,
            *self == SemanticColor::PrimaryMuted ==> r == palette.primary.muted,
            *self == SemanticColor::Background ==> r == palette.neutral.step_0,
            *self == SemanticColor::Surface ==> r == palette.neutral.step_100,
            *self == SemanticColor::Elevated ==> r == palette.neutral.step_200,
            *self == SemanticColor::Modal ==> r == palette.neutral.step_300,
            *self == SemanticColor::Text ==> r == palette.neutral.step_950,
            *self == SemanticColor::TextSecondary ==> r == palette.neutral.step_500,
            *self == SemanticColor::TextMuted ==> r == palette.neutral.step_400,
            *self == SemanticColor::TextOnAccent ==> r == palette.neutral.step_0,
            *self == SemanticColor::Border ==> r == palette.neutral.step_300,
            *self == SemanticColor::BorderActive ==> r == palette.primary.base,
            *self == SemanticColor::BorderSubtle ==> r == palette.neutral.step_200,
            *self == SemanticColor::Success ==> r == palette.status.success,
            *self == SemanticColor::Warning ==> r == palette.status.warning,
            *self == SemanticColor::Error ==> r == palette.status.error,
            *self == SemanticColor::Info ==> r == palette.status.info,
            *self == SemanticColor::Pending ==> r == palette.status.pending,
            *self == SemanticColor::AccentBlue ==> r == palette.accent.blue,
            *self == SemanticColor::AccentPurple ==> r == palette.accent.purple,
            *self == SemanticColor::AccentGreen ==> r == palette.accent.green,
            *self == SemanticColor::AccentOrange ==> r == palette.accent.orange,
            *self == SemanticColor::AccentRed ==> r == palette.accent.red,
            *self == SemanticColor::AccentCyan ==> r == palette.accent.cyan,
            *self == SemanticColor::AccentPink ==> r == palette.accent.pink,
            *self matches SemanticColor::Custom(c) ==> r == c,
    {
        match self {
            SemanticColor::Primary => palette.primary.base,
            SemanticColor::PrimaryBright => palette.primary.bright,
            SemanticColor::PrimaryLight => palette.primary.light,
            SemanticColor::PrimaryDark => palette.primary.dark,
            SemanticColor::PrimaryMuted => palette.primary.muted,
            SemanticColor::Background => palette.neutral.step_0,
            SemanticColor::Surface => palette.neutral.step_100,
            SemanticColor::Elevated => palette.neutral.step_200,
            SemanticColor::Modal => palette.neutral.step_300,
            SemanticColor::Text => palette.neutral.step_950,
            SemanticColor::TextSecondary => palette.neutral.step_500,
            SemanticColor::TextMuted => palette.neutral.step_400,
            SemanticColor::TextOnAccent => palette.neutral.step_0,
            SemanticColor::Border => palette.neutral.step_300,
            SemanticColor::BorderActive => palette.primary.base,
            SemanticColor::BorderSubtle => palette.neutral.step_200,
            SemanticColor::Success => palette.status.success,
            SemanticColor::Warning => palette.status.warning,
            SemanticColor::Error => palette.status.error,
            SemanticColor::Info => palette.status.info,
            SemanticColor::Pending => palette.status.pending,
            SemanticColor::AccentBlue => palette.accent.blue,
            SemanticColor::AccentPurple => palette.accent.purple,
            SemanticColor::AccentGreen => palette.accent.green,
            SemanticColor::AccentOrange => palette.accent.orange,
            SemanticColor::AccentRed => palette.accent.red,
            SemanticColor::AccentCyan => palette.accent.cyan,
            SemanticColor::AccentPink => palette.accent.pink,
            SemanticColor::Transparent => color_transparent(),
            SemanticColor::Custom(c) => *c,
        }
    }
}

/// The colors of the dark mode.
pub open spec fn dark_palette() -> Palette {
        Palette {
            primary: PrimaryPalette {
                base: hex_color(0x2b6de8),
                bright: hex_color(0x4a8aff),
                light: hex_color(0x6ba3ff),
                dark: hex_color(0x1a3d8f),
                muted: hex_color(0x0f1f4a),
            },
            neutral: NeutralPalette {
                step_0: hex_color(0x030712),
                step_50: hex_color(0x05091b),
                step_100: hex_color(0x080e24),
                step_200: hex_color(0x0a1229),
                step_300: hex_color(0x0d1530),
                step_400: hex_color(0x0e1a35),
                step_500: hex_color(0x111d3a),
                step_600: hex_color(0x162145),
                step_700: hex_color(0x1c2955),
                step_800: hex_color(0x23316a),
                step_900: hex_color(0x2d3d80),
                step_950: hex_color(0x3a4d96),
            },
            accent: AccentPalette {
                blue: hex_color(0x2b6de8),
                purple: hex_color(0x7c5bf5),
                green: hex_color(0x22c55e),
                orange: hex_color(0xf59e0b),
                red: hex_color(0xef4444),
                cyan: hex_color(0x06b6d4),
                pink: hex_color(0xec4899),
                yellow: hex_color(0xeab308),
                teal: hex_color(0x14b8a6),
            },
            status: StatusPalette {
                success: hex_color(0x22c55e),
                warning: hex_color(0xf59e0b),
                error: hex_color(0xef4444),
                info: hex_color(0x3b82f6),
                pending: hex_color(0x8b5cf6),
            },
        }
}

/// The dark palette.
pub fn dark() -> (r: Palette)
    ensures
        r == dark_palette(),
{
        Palette {
            primary: PrimaryPalette {
                base: rgb(0x2b6de8),
                bright: rgb(0x4a8aff),
                light: rgb(0x6ba3ff),
                dark: rgb(0x1a3d8f),
                muted: rgb(0x0f1f4a),
            },
            neutral: NeutralPalette {
                step_0: rgb(0x030712),
                step_50: rgb(0x05091b),
                step_100: rgb(0x080e24),
                step_200: rgb(0x0a1229),
                step_300: rgb(0x0d1530),
                step_400: rgb(0x0e1a35),
                step_500: rgb(0x111d3a),
                step_600: rgb(0x162145),
                step_700: rgb(0x1c2955),
                step_800: rgb(0x23316a),
                step_900: rgb(0x2d3d80),
                step_950: rgb(0x3a4d96),
            },
            accent: AccentPalette {
                blue: rgb(0x2b6de8),
                purple: rgb(0x7c5bf5),
                green: rgb(0x22c55e),
                orange: rgb(0xf59e0b),
                red: rgb(0xef4444),
                cyan: rgb(0x06b6d4),
                pink: rgb(0xec4899),
                yellow: rgb(0xeab308),
                teal: rgb(0x14b8a6),
            },
            status: StatusPalette {
                success: rgb(0x22c55e),
                warning: rgb(0xf59e0b),
                error: rgb(0xef4444),
                info: rgb(0x3b82f6),
                pending: rgb(0x8b5cf6),
            },
        }
}

/// The colors of the light mode.
pub open spec fn light_palette() -> Palette {
        Palette {
            primary: PrimaryPalette {
                base: hex_color(0x2563eb),
                bright: hex_color(0x3b82f6),
                light: hex_color(0x60a5fa),
                dark: hex_color(0x1d4ed8),
                muted: hex_color(0xdbeafe),
            },
            neutral: NeutralPalette {
                step_0: hex_color(0xffffff),
                step_50: hex_color(0xf8fafc),
                step_100: hex_color(0xf1f5f9),
                step_200: hex_color(0xe2e8f0),
                step_300: hex_color(0xcbd5e1),
                step_400: hex_color(0x94a3b8),
                step_500: hex_color(0x64748b),
                step_600: hex_color(0x475569),
                step_700: hex_color(0x334155),
                step_800: hex_color(0x1e293b),
                step_900: hex_color(0x0f172a),
                step_950: hex_color(0x020617),
            },
            accent: AccentPalette {
                blue: hex_color(0x2563eb),
                purple: hex_color(0x7c3aed),
                green: hex_color(0x16a34a),
                orange: hex_color(0xea580c),
                red: hex_color(0xdc2626),
                cyan: hex_color(0x0891b2),
                pink: hex_color(0xdb2777),
                yellow: hex_color(0xca8a04),
                teal: hex_color(0x0d9488),
            },
            status: StatusPalette {
                success: hex_color(0x16a34a),
                warning: hex_color(0xca8a04),
                error: hex_color(0xdc2626),
                info: hex_color(0x2563eb),
                pending: hex_color(0x7c3aed),
            },
        }
}

/// The light palette.
pub fn light() -> (r: Palette)
    ensures
        r == light_palette(),
{
        Palette {
            primary: PrimaryPalette {
                base: rgb(0x2563eb),
                bright: rgb(0x3b82f6),
                light: rgb(0x60a5fa),
                dark: rgb(0x1d4ed8),
                muted: rgb(0xdbeafe),
            },
            neutral: NeutralPalette {
                step_0: rgb(0xffffff),
                step_50: rgb(0xf8fafc),
                step_100: rgb(0xf1f5f9),
                step_200: rgb(0xe2e8f0),
                step_300: rgb(0xcbd5e1),
                step_400: rgb(0x94a3b8),
                step_500: rgb(0x64748b),
                step_600: rgb(0x475569),
                step_700: rgb(0x334155),
                step_800: rgb(0x1e293b),
                step_900: rgb(0x0f172a),
                step_950: rgb(0x020617),
            },
            accent: AccentPalette {
                blue: rgb(0x2563eb),
                purple: rgb(0x7c3aed),
                green: rgb(0x16a34a),
                orange: rgb(0xea580c),
                red: rgb(0xdc2626),
                cyan: rgb(0x0891b2),
                pink: rgb(0xdb2777),
                yellow: rgb(0xca8a04),
                teal: rgb(0x0d9488),
            },
            status: StatusPalette {
                success: rgb(0x16a34a),
                warning: rgb(0xca8a04),
                error: rgb(0xdc2626),
                info: rgb(0x2563eb),
                pending: rgb(0x7c3aed),
            },
        }
}

} // verus!

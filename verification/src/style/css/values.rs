//! How declared values are read: which kind of value each property takes,
//! which style field it sets, and the channels of hexadecimal and named
//! colors.
use vstd::prelude::*;
use crate::text::{all_ascii, ascii_lowercase, chars_of, str_lowercase, to_lowercase};

verus! {

/// `a` and `b` are the same text.
fn same_text(a: &str, b: &str) -> (r: bool)
    ensures
        r == (a@ == b@),
{
    let x = chars_of(a);
    let y = chars_of(b);
    if x.len() != y.len() {
        return false;
    }
    let mut i: usize = 0;
    while i < x.len()
        invariant
            i <= x.len(),
            x@ == a@,
            y@ == b@,
            x.len() == y.len(),
            forall|j: int| 0 <= j < i ==> x@[j] == y@[j],
        decreases x.len() - i,
    {
        if x[i] != y[i] {
            return false;
        }
        i = i + 1;
    }
    proof {
        assert(x@ =~= y@);
    }
    true
}

/// The kind of value a property is read as.
#[derive(Debug, Clone, Copy, PartialEq, Eq, Structural)]
pub enum ValueKind {
    /// A color: hexadecimal, named, or `rgb(..)`.
    Color,
    /// A corner radius.
    BorderRadius,
    /// A number between 0 and 1.
    Opacity,
    /// A number between 100 and 900.
    FontWeight,
    /// A length, a percentage, or `auto`, `fill`, `shrink`.
    Length,
    /// A shadow: offsets, blur and color.
    Shadow,
    /// A keyword, a string or a number, as written.
    Generic,
}

/// The kind of value each property is read as.
pub open spec fn value_kind_spec(name: Seq<char>) -> ValueKind {
    if name == "background"@ || name == "background-color"@ || name == "color"@ {
        ValueKind::Color
    } else if name == "border-radius"@ {
        ValueKind::BorderRadius
    } else if name == "opacity"@ {
        ValueKind::Opacity
    } else if name == "width"@ || name == "height"@ || name == "min-width"@ || name == "min-height"@
        || name == "max-width"@ || name == "max-height"@ || name == "padding"@ || name == "margin"@
        || name == "gap"@ || name == "spacing"@ || name == "font-size"@ || name == "icon-size"@ {
        ValueKind::Length
    } else if name == "font-weight"@ {
        ValueKind::FontWeight
    } else if name == "shadow"@ || name == "box-shadow"@ {
        ValueKind::Shadow
    } else {
        ValueKind::Generic
    }
}

/// The kind of value the property `name` is read as.
pub fn value_kind(name: &str) -> (r: ValueKind)
    ensures
        r == value_kind_spec(name@),
{
    if same_text(name, "background") || same_text(name, "background-color") || same_text(name, "color") {
        ValueKind::Color
    } else if same_text(name, "border-radius") {
        ValueKind::BorderRadius
    } else if same_text(name, "opacity") {
        ValueKind::Opacity
    } else if same_text(name, "width") || same_text(name, "height") || same_text(name, "min-width")
        || same_text(name, "min-height") || same_text(name, "max-width") || same_text(name, "max-height")
        || same_text(name, "padding") || same_text(name, "margin") || same_text(name, "gap")
        || same_text(name, "spacing") || same_text(name, "font-size") || same_text(name, "icon-size") {
        ValueKind::Length
    } else if same_text(name, "font-weight") {
        ValueKind::FontWeight
    } else if same_text(name, "shadow") || same_text(name, "box-shadow") {
        ValueKind::Shadow
    } else {
        ValueKind::Generic
    }
}

/// The field of a widget's style set that a property sets.
#[derive(Debug, Clone, Copy, PartialEq, Eq, Structural)]
pub enum StyleSlot {
    Background,
    TextColor,
    Opacity,
    BorderRadius,
    BorderWidth,
    BorderColor,
    Width,
    Height,
    MinWidth,
    MinHeight,
    MaxWidth,
    MaxHeight,
    Padding,
    Margin,
    FontSize,
    FontWeight,
    Shadow,
    IconSize,
    Gap,
}

/// The field each property sets; none for a property the style set does
/// not hold.
pub open spec fn style_slot_spec(name: Seq<char>) -> Option<StyleSlot> {
    if name == "background"@ || name == "background-color"@ {
        Some(StyleSlot::Background)
    } else if name == "color"@ {
        Some(StyleSlot::TextColor)
    } else if name == "opacity"@ {
        Some(StyleSlot::Opacity)
    } else if name == "border-radius"@ {
        Some(StyleSlot::BorderRadius)
    } else if name == "border-width"@ || name == "border"@ {
        Some(StyleSlot::BorderWidth)
    } else if name == "border-color"@ {
        Some(StyleSlot::BorderColor)
    } else if name == "width"@ {
        Some(StyleSlot::Width)
    } else if name == "height"@ {
        Some(StyleSlot::Height)
    } else if name == "min-width"@ {
        Some(StyleSlot::MinWidth)
    } else if name == "min-height"@ {
        Some(StyleSlot::MinHeight)
    } else if name == "max-width"@ {
        Some(StyleSlot::MaxWidth)
    } else if name == "max-height"@ {
        Some(StyleSlot::MaxHeight)
    } else if name == "padding"@ {
        Some(StyleSlot::Padding)
    } else if name == "margin"@ {
        Some(StyleSlot::Margin)
    } else if name == "font-size"@ {
        Some(StyleSlot::FontSize)
    } else if name == "font-weight"@ {
        Some(StyleSlot::FontWeight)
    } else if name == "shadow"@ || name == "box-shadow"@ {
        Some(StyleSlot::Shadow)
    } else if name == "icon-size"@ {
        Some(StyleSlot::IconSize)
    } else if name == "gap"@ || name == "spacing"@ {
        Some(StyleSlot::Gap)
    } else {
        None
    }
}

/// The field of a widget's style set that the property `name` sets.
pub fn style_slot(name: &str) -> (r: Option<StyleSlot>)
    ensures
        r == style_slot_spec(name@),
{
    if same_text(name, "background") || same_text(name, "background-color") {
        Some(StyleSlot::Background)
    } else if same_text(name, "color") {
        Some(StyleSlot::TextColor)
    } else if same_text(name, "opacity") {
        Some(StyleSlot::Opacity)
    } else if same_text(name, "border-radius") {
        Some(StyleSlot::BorderRadius)
    } else if same_text(name, "border-width") || same_text(name, "border") {
        Some(StyleSlot::BorderWidth)
    } else if same_text(name, "border-color") {
        Some(StyleSlot::BorderColor)
    } else if same_text(name, "width") {
        Some(StyleSlot::Width)
    } else if same_text(name, "height") {
        Some(StyleSlot::Height)
    } else if same_text(name, "min-width") {
        Some(StyleSlot::MinWidth)
    } else if same_text(name, "min-height") {
        Some(StyleSlot::MinHeight)
    } else if same_text(name, "max-width") {
        Some(StyleSlot::MaxWidth)
    } else if same_text(name, "max-height") {
        Some(StyleSlot::MaxHeight)
    } else if same_text(name, "padding") {
        Some(StyleSlot::Padding)
    } else if same_text(name, "margin") {
        Some(StyleSlot::Margin)
    } else if same_text(name, "font-size") {
        Some(StyleSlot::FontSize)
    } else if same_text(name, "font-weight") {
        Some(StyleSlot::FontWeight)
    } else if same_text(name, "shadow") || same_text(name, "box-shadow") {
        Some(StyleSlot::Shadow)
    } else if same_text(name, "icon-size") {
        Some(StyleSlot::IconSize)
    } else if same_text(name, "gap") || same_text(name, "spacing") {
        Some(StyleSlot::Gap)
    } else {
        None
    }
}

// ── Colors ──────────────────────────────────────────────────────────────

/// The value of a hexadecimal digit (either case).
pub open spec fn hex_digit(c: char) -> Option<u8> {
    if '0' <= c && c <= '9' {
        Some((c as u32 - '0' as u32) as u8)
    } else if 'a' <= c && c <= 'f' {
        Some((c as u32 - 'a' as u32 + 10) as u8)
    } else if 'A' <= c && c <= 'F' {
        Some((c as u32 - 'A' as u32 + 10) as u8)
    } else {
        None
    }
}

/// A two-character field read as a base-16 number below 256, as
/// `u8::from_str_radix(_, 16)` reads it: two digits, or a `+` and a digit.
pub open spec fn hex_field2(a: char, b: char) -> Option<u8> {
    match (hex_digit(a), hex_digit(b)) {
        (Some(x), Some(y)) => Some((16 * x + y) as u8),
        (None, Some(y)) => if a == '+' { Some(y) } else { None },
        _ => None,
    }
}

/// The text after its leading `#` characters.
pub open spec fn strip_hashes(s: Seq<char>) -> Seq<char>
    decreases s.len(),
{
    if s.len() > 0 && s[0] == '#' {
        strip_hashes(s.drop_first())
    } else {
        s
    }
}

/// The red, green, blue and alpha channels of a hexadecimal color written
/// `rgb`, `rrggbb` or `rrggbbaa` after any leading `#` (a short digit `d`
/// stands for `dd`; without alpha it is 255); none for any other text.
pub open spec fn hex_rgba(text: Seq<char>) -> Option<(u8, u8, u8, u8)> {
    let h = strip_hashes(text);
    if h.len() == 3 {
        match (hex_digit(h[0]), hex_digit(h[1]), hex_digit(h[2])) {
            (Some(r), Some(g), Some(b)) => Some(((r * 17) as u8, (g * 17) as u8, (b * 17) as u8, 255u8)),
            _ => None,
        }
    } else if h.len() == 6 {
        match (hex_field2(h[0], h[1]), hex_field2(h[2], h[3]), hex_field2(h[4], h[5])) {
            (Some(r), Some(g), Some(b)) => Some((r, g, b, 255u8)),
            _ => None,
        }
    } else if h.len() == 8 {
        match (hex_field2(h[0], h[1]), hex_field2(h[2], h[3]), hex_field2(h[4], h[5]), hex_field2(h[6], h[7])) {
            (Some(r), Some(g), Some(b), Some(a)) => Some((r, g, b, a)),
            _ => None,
        }
    } else {
        None
    }
}

/// A hexadecimal color `#` followed by digits gives its channels in the
/// order written: for six digits `d1..d6`, red is `16*d1+d2`, green
/// `16*d3+d4` and blue `16*d5+d6`, opaque; for eight, alpha is `16*d7+d8`;
/// for three, each digit `d` is doubled into `17*d`.
pub proof fn lemma_hex_channels_in_order(text: Seq<char>)
    requires
        text.len() == 4 || text.len() == 7 || text.len() == 9,
        text[0] == '#',
        forall|i: int| 1 <= i < text.len() ==> (#[trigger] hex_digit(text[i])) is Some,
    ensures
        text.len() == 7 ==> hex_rgba(text) == Some((
            (16 * hex_digit(text[1])->0 + hex_digit(text[2])->0) as u8,
            (16 * hex_digit(text[3])->0 + hex_digit(text[4])->0) as u8,
            (16 * hex_digit(text[5])->0 + hex_digit(text[6])->0) as u8,
            255u8,
        )),
        text.len() == 9 ==> hex_rgba(text) == Some((
            (16 * hex_digit(text[1])->0 + hex_digit(text[2])->0) as u8,
            (16 * hex_digit(text[3])->0 + hex_digit(text[4])->0) as u8,
            (16 * hex_digit(text[5])->0 + hex_digit(text[6])->0) as u8,
            (16 * hex_digit(text[7])->0 + hex_digit(text[8])->0) as u8,
        )),
        text.len() == 4 ==> hex_rgba(text) == Some((
            (17 * hex_digit(text[1])->0) as u8,
            (17 * hex_digit(text[2])->0) as u8,
            (17 * hex_digit(text[3])->0) as u8,
            255u8,
        )),
{
    let h = text.drop_first();
    assert(hex_digit(text[1]) is Some);
    assert(text[1] != '#');
    assert(strip_hashes(h) == h);
    assert(strip_hashes(text) == h);
    assert forall|i: int| 0 <= i < h.len() implies hex_digit(#[trigger] h[i]) is Some by {
        assert(h[i] == text[i + 1]);
        assert(hex_digit(text[i + 1]) is Some);
    }
    assert(h[0] == text[1]);
    assert(h[1] == text[2]);
    assert(h[2] == text[3]);
    if text.len() >= 7 {
        assert(h[3] == text[4]);
        assert(h[4] == text[5]);
        assert(h[5] == text[6]);
    }
    if text.len() == 9 {
        assert(h[6] == text[7]);
        assert(h[7] == text[8]);
    }
}

fn hex_digit_of(c: char) -> (r: Option<u8>)
    ensures
        r == hex_digit(c),
{
    if '0' <= c && c <= '9' {
        Some((c as u32 - '0' as u32) as u8)
    } else if 'a' <= c && c <= 'f' {
        Some((c as u32 - 'a' as u32 + 10) as u8)
    } else if 'A' <= c && c <= 'F' {
        Some((c as u32 - 'A' as u32 + 10) as u8)
    } else {
        None
    }
}

fn hex_field2_of(a: char, b: char) -> (r: Option<u8>)
    ensures
        r == hex_field2(a, b),
{
    match (hex_digit_of(a), hex_digit_of(b)) {
        (Some(x), Some(y)) => Some(16 * x + y),
        (None, Some(y)) => if a == '+' { Some(y) } else { None },
        _ => None,
    }
}

/// The channels of a hexadecimal color (see [`hex_rgba`]). Text holding a
/// character beyond ASCII is no such color.
pub fn parse_hex_rgba(text: &str) -> (r: Option<(u8, u8, u8, u8)>)
    ensures
        r == hex_rgba(text@),
{
    let cs = chars_of(text);
    let mut start: usize = 0;
    proof {
        assert(cs@.skip(0) =~= cs@);
    }
    while start < cs.len() && cs[start] == '#'
        invariant
            start <= cs.len(),
            cs@ == text@,
            strip_hashes(text@) == strip_hashes(cs@.skip(start as int)),
        decreases cs.len() - start,
    {
        proof {
            assert(cs@.skip(start as int).drop_first() =~= cs@.skip(start + 1));
        }
        start = start + 1;
    }
    let ghost h = cs@.skip(start as int);
    proof {
        assert(strip_hashes(h) == h);
    }
    let n = cs.len() - start;
    if n == 3 {
        let r = hex_digit_of(cs[start]);
        let g = hex_digit_of(cs[start + 1]);
        let b = hex_digit_of(cs[start + 2]);
        proof {
            assert(h[0] == cs@[start as int] && h[1] == cs@[start + 1] && h[2] == cs@[start + 2]);
        }
        match (r, g, b) {
            (Some(r), Some(g), Some(b)) => Some((r * 17, g * 17, b * 17, 255)),
            _ => None,
        }
    } else if n == 6 {
        let r = hex_field2_of(cs[start], cs[start + 1]);
        let g = hex_field2_of(cs[start + 2], cs[start + 3]);
        let b = hex_field2_of(cs[start + 4], cs[start + 5]);
        proof {
            assert(h[0] == cs@[start as int] && h[1] == cs@[start + 1] && h[2] == cs@[start + 2]);
            assert(h[3] == cs@[start + 3] && h[4] == cs@[start + 4] && h[5] == cs@[start + 5]);
        }
        match (r, g, b) {
            (Some(r), Some(g), Some(b)) => Some((r, g, b, 255)),
            _ => None,
        }
    } else if n == 8 {
        let r = hex_field2_of(cs[start], cs[start + 1]);
        let g = hex_field2_of(cs[start + 2], cs[start + 3]);
        let b = hex_field2_of(cs[start + 4], cs[start + 5]);
        let a = hex_field2_of(cs[start + 6], cs[start + 7]);
        proof {
            assert(h[0] == cs@[start as int] && h[1] == cs@[start + 1] && h[2] == cs@[start + 2]);
            assert(h[3] == cs@[start + 3] && h[4] == cs@[start + 4] && h[5] == cs@[start + 5]);
            assert(h[6] == cs@[start + 6] && h[7] == cs@[start + 7]);
        }
        match (r, g, b, a) {
            (Some(r), Some(g), Some(b), Some(a)) => Some((r, g, b, a)),
            _ => None,
        }
    } else {
        None
    }
}

/// The channels of the named colors, by lower-cased name: `transparent`
/// (all zero), `white`, `black`, `red`, `green` (half intensity) and `blue`,
/// opaque.
pub open spec fn named_rgba(lower: Seq<char>) -> Option<(u8, u8, u8, u8)> {
    if lower == "transparent"@ {
        Some((0u8, 0u8, 0u8, 0u8))
    } else if lower == "white"@ {
        Some((255u8, 255u8, 255u8, 255u8))
    } else if lower == "black"@ {
        Some((0u8, 0u8, 0u8, 255u8))
    } else if lower == "red"@ {
        Some((255u8, 0u8, 0u8, 255u8))
    } else if lower == "green"@ {
        Some((0u8, 128u8, 0u8, 255u8))
    } else if lower == "blue"@ {
        Some((0u8, 0u8, 255u8, 255u8))
    } else {
        None
    }
}

/// The channels of a named color, its name read in any case.
pub fn named_color_rgba(name: &str) -> (r: Option<(u8, u8, u8, u8)>)
    ensures
        r == named_rgba(str_lowercase(name@)),
        all_ascii(name@) ==> r == named_rgba(ascii_lowercase(name@)),
{
    let lower = to_lowercase(name);
    let l = lower.as_str();
    if same_text(l, "transparent") {
        Some((0, 0, 0, 0))
    } else if same_text(l, "white") {
        Some((255, 255, 255, 255))
    } else if same_text(l, "black") {
        Some((0, 0, 0, 255))
    } else if same_text(l, "red") {
        Some((255, 0, 0, 255))
    } else if same_text(l, "green") {
        Some((0, 128, 0, 255))
    } else if same_text(l, "blue") {
        Some((0, 0, 255, 255))
    } else {
        None
    }
}

} // verus!

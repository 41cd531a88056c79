//! Avatars: a label's initials or an icon, with an online dot.
use vstd::prelude::*;
use iced_core::Color;
use crate::text::{chars_of, char_uppercase, to_uppercase_string};

verus! {

/// Avatar sizes.
#[derive(Debug, Clone, Copy, PartialEq, Eq, Structural)]
pub enum AvatarSize {
    XS,
    SM,
    MD,
    LG,
    XL,
}

impl Default for AvatarSize {
    fn default() -> (r: Self)
        ensures
            r == AvatarSize::MD,
    {
        AvatarSize::MD
    }
}

/// An avatar.
pub struct ModernAvatar<E> {
    pub label: String,
    pub size: AvatarSize,
    pub icon: Option<E>,
    pub online: bool,
    pub color: Option<Color>,
}

impl<E> ModernAvatar<E> {
    /// A medium avatar for a label, offline, with no icon and the default color.
    pub fn new(label: &str) -> (r: Self)
        ensures
            r.label@ == label@,
            r.size == AvatarSize::MD,
            r.icon is None,
            !r.online,
            r.color is None,
    {
        ModernAvatar { label: String::from_str(label), size: AvatarSize::MD, icon: None, online: false, color: None }
    }

    pub fn size(self, size: AvatarSize) -> (r: Self)
        ensures
            r.label == self.label,
            r.size == size,
            r.icon == self.icon,
            r.online == self.online,
            r.color == self.color,
    {
        ModernAvatar { size, ..self }
    }

    pub fn icon(self, icon: E) -> (r: Self)
        ensures
            r.label == self.label,
            r.size == self.size,
            r.icon == Some(icon),
            r.online == self.online,
            r.color == self.color,
    {
        ModernAvatar { icon: Some(icon), ..self }
    }

    pub fn online(self, online: bool) -> (r: Self)
        ensures
            r.label == self.label,
            r.size == self.size,
            r.icon == self.icon,
            r.online == online,
            r.color == self.color,
    {
        ModernAvatar { online, ..self }
    }

    pub fn color(self, color: Color) -> (r: Self)
        ensures
            r.label == self.label,
            r.size == self.size,
            r.icon == self.icon,
            r.online == self.online,
            r.color == Some(color),
    {
        ModernAvatar { color: Some(color), ..self }
    }
}

/// The side of an avatar of each size, in pixels.
pub open spec fn avatar_side(size: AvatarSize) -> u32 {
    match size {
        AvatarSize::XS => 24,
        AvatarSize::SM => 32,
        AvatarSize::MD => 40,
        AvatarSize::LG => 56,
        AvatarSize::XL => 80,
    }
}

/// The letter an avatar without an icon shows: the first character of its
/// label, or `?` for an empty label.
pub open spec fn initial_of(label: Seq<char>) -> char {
    if label.len() > 0 { label[0] } else { '?' }
}

/// What fills an avatar: its icon, or the upper-cased initial of its label.
pub enum AvatarFace<E> {
    Icon(E),
    Initial(String),
}

/// What an avatar shows: a square of its size's side, filled with its face.
pub struct AvatarLayout<E> {
    pub side: u32,
    pub face: AvatarFace<E>,
}

impl<E> ModernAvatar<E> {
    /// The avatar's layout.
    pub fn layout(self) -> (r: AvatarLayout<E>)
        ensures
            r.side == avatar_side(self.size),
            match self.icon {
                Some(i) => r.face == AvatarFace::Icon(i),
                None => r.face matches AvatarFace::Initial(t) && t@ == char_uppercase(initial_of(self.label@)),
            },
    {
        let side: u32 = match self.size {
            AvatarSize::XS => 24,
            AvatarSize::SM => 32,
            AvatarSize::MD => 40,
            AvatarSize::LG => 56,
            AvatarSize::XL => 80,
        };
        let face = match self.icon {
            Some(i) => AvatarFace::Icon(i),
            None => {
                let cs = chars_of(self.label.as_str());
                let first = if cs.len() > 0 { cs[0] } else { '?' };
                AvatarFace::Initial(to_uppercase_string(first))
            },
        };
        AvatarLayout { side, face }
    }
}

} // verus!

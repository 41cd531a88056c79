//! Buttons.
use vstd::prelude::*;
use iced_core::{Length, Padding};
use crate::measure::{length_shrink, padding_from_vh, padding_vh};

verus! {

/// Button variants.
#[derive(Debug, Clone, Copy, PartialEq, Eq, Structural)]
pub enum ButtonVariant {
    Plein,
    Outline,
    Ghosted,
}

impl Default for ButtonVariant {
    fn default() -> (r: Self)
        ensures
            r == ButtonVariant::Plein,
    {
        ButtonVariant::Plein
    }
}

/// A button.
pub struct ModernButton<E, Message> {
    pub label: String,
    pub variant: ButtonVariant,
    pub on_press: Option<Message>,
    pub width: Length,
    pub height: Length,
    pub padding: Padding,
    pub icon: Option<E>,
}

impl<E, Message> ModernButton<E, Message> {
    /// A filled button that shrinks to its label, padded 10 by 20, with no
    /// message and no icon.
    pub fn new(label: &str) -> (r: Self)
        ensures
            r.label@ == label@,
            r.variant == ButtonVariant::Plein,
            r.on_press is None,
            r.padding == padding_vh(10, 20),
            r.icon is None,
    {
        ModernButton {
            label: String::from_str(label),
            variant: ButtonVariant::Plein,
            on_press: None,
            width: length_shrink(),
            height: length_shrink(),
            padding: padding_from_vh(10, 20),
            icon: None,
        }
    }

    pub fn variant(self, variant: ButtonVariant) -> (r: Self)
        ensures
            r == (ModernButton { variant, ..self }),
    {
        ModernButton { variant, ..self }
    }

    pub fn on_press(self, msg: Message) -> (r: Self)
        ensures
            r == (ModernButton { on_press: Some(msg), ..self }),
    {
        ModernButton { on_press: Some(msg), ..self }
    }

    pub fn width(self, width: Length) -> (r: Self)
        ensures
            r == (ModernButton { width, ..self }),
    {
        ModernButton { width, ..self }
    }

    pub fn height(self, height: Length) -> (r: Self)
        ensures
            r == (ModernButton { height, ..self }),
    {
        ModernButton { height, ..self }
    }

    pub fn padding(self, padding: Padding) -> (r: Self)
        ensures
            r == (ModernButton { padding, ..self }),
    {
        ModernButton { padding, ..self }
    }

    pub fn icon(self, icon: E) -> (r: Self)
        ensures
            r == (ModernButton { icon: Some(icon), ..self }),
    {
        ModernButton { icon: Some(icon), ..self }
    }
}

/// The toolkit's button looks: the suggested action, a standard button, or
/// text alone.
#[derive(Debug, Clone, Copy, PartialEq, Eq, Structural)]
pub enum ButtonLook {
    Suggested,
    Standard,
    Text,
}

pub open spec fn button_look(v: ButtonVariant) -> ButtonLook {
    match v {
        ButtonVariant::Plein => ButtonLook::Suggested,
        ButtonVariant::Outline => ButtonLook::Standard,
        ButtonVariant::Ghosted => ButtonLook::Text,
    }
}

/// What a button shows: its icon before its label, in its look, size and
/// padding, sending its message when pressed; it lifts when pointed at.
pub struct ButtonLayout<E, Message> {
    pub icon: Option<E>,
    pub label: String,
    pub look: ButtonLook,
    pub width: Length,
    pub height: Length,
    pub padding: Padding,
    pub on_press: Option<Message>,
}

impl<E, Message> ModernButton<E, Message> {
    /// The button's layout.
    pub fn layout(self) -> (r: ButtonLayout<E, Message>)
        ensures
            r.icon == self.icon,
            r.label == self.label,
            r.look == button_look(self.variant),
            r.width == self.width,
            r.height == self.height,
            r.padding == self.padding,
            r.on_press == self.on_press,
    {
        let look = match self.variant {
            ButtonVariant::Plein => ButtonLook::Suggested,
            ButtonVariant::Outline => ButtonLook::Standard,
            ButtonVariant::Ghosted => ButtonLook::Text,
        };
        ButtonLayout {
            icon: self.icon,
            label: self.label,
            look,
            width: self.width,
            height: self.height,
            padding: self.padding,
            on_press: self.on_press,
        }
    }
}

} // verus!

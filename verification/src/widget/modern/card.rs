//! Cards: a body with an optional header and footer.
use vstd::prelude::*;
use iced_core::{Length, Padding};
use crate::measure::{length_fill, length_shrink, padding_from_vh, padding_vh};
use crate::widget::sory_card::CardLook;

verus! {

/// A card.
pub struct ModernCard<E, Message> {
    pub header: Option<E>,
    pub body: E,
    pub footer: Option<E>,
    pub on_press: Option<Message>,
    pub width: Length,
    pub height: Length,
    pub padding: Padding,
    pub selected: bool,
}

impl<E, Message> ModernCard<E, Message> {
    /// A card around a body: full width, shrunk height, padded 16 by 16,
    /// not selected.
    pub fn new(body: E) -> (r: Self)
        ensures
            r.header is None,
            r.body == body,
            r.footer is None,
            r.on_press is None,
            r.padding == padding_vh(16, 16),
            !r.selected,
    {
        ModernCard {
            header: None,
            body,
            footer: None,
            on_press: None,
            width: length_fill(),
            height: length_shrink(),
            padding: padding_from_vh(16, 16),
            selected: false,
        }
    }

    pub fn header(self, header: E) -> (r: Self)
        ensures
            r == (ModernCard { header: Some(header), ..self }),
    {
        ModernCard { header: Some(header), ..self }
    }

    pub fn footer(self, footer: E) -> (r: Self)
        ensures
            r == (ModernCard { footer: Some(footer), ..self }),
    {
        ModernCard { footer: Some(footer), ..self }
    }

    pub fn on_press(self, msg: Message) -> (r: Self)
        ensures
            r == (ModernCard { on_press: Some(msg), ..self }),
    {
        ModernCard { on_press: Some(msg), ..self }
    }

    pub fn width(self, width: Length) -> (r: Self)
        ensures
            r == (ModernCard { width, ..self }),
    {
        ModernCard { width, ..self }
    }

    pub fn height(self, height: Length) -> (r: Self)
        ensures
            r == (ModernCard { height, ..self }),
    {
        ModernCard { height, ..self }
    }

    pub fn padding(self, padding: Padding) -> (r: Self)
        ensures
            r == (ModernCard { padding, ..self }),
    {
        ModernCard { padding, ..self }
    }

    pub fn selected(self, selected: bool) -> (r: Self)
        ensures
            r == (ModernCard { selected, ..self }),
    {
        ModernCard { selected, ..self }
    }
}

/// What a card shows: the header, body and footer stacked, as a folder
/// card (with the accent when selected), in its size and padding, sending
/// its message when pressed; it lifts when pointed at.
pub struct ModernCardLayout<E, Message> {
    pub look: CardLook,
    pub header: Option<E>,
    pub body: E,
    pub footer: Option<E>,
    pub width: Length,
    pub height: Length,
    pub padding: Padding,
    pub on_press: Option<Message>,
}

impl<E, Message> ModernCard<E, Message> {
    /// The card's layout.
    pub fn layout(self) -> (r: ModernCardLayout<E, Message>)
        ensures
            r.look == (if self.selected { CardLook::FolderSelected } else { CardLook::Folder }),
            r.header == self.header,
            r.body == self.body,
            r.footer == self.footer,
            r.width == self.width,
            r.height == self.height,
            r.padding == self.padding,
            r.on_press == self.on_press,
    {
        let look = if self.selected { CardLook::FolderSelected } else { CardLook::Folder };
        ModernCardLayout {
            look,
            header: self.header,
            body: self.body,
            footer: self.footer,
            width: self.width,
            height: self.height,
            padding: self.padding,
            on_press: self.on_press,
        }
    }
}

} // verus!

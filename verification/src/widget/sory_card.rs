//! Cards of the SoryOS look: a body with an optional header and footer, in
//! one of four visual states.
use vstd::prelude::*;
use iced_core::{Length, Padding, Pixels};
use crate::measure::{length_fill, length_shrink, padding_from_vh, padding_vh};
use crate::widget::sory_page::{grid_cell, sory_grid_rows};

verus! {

/// The visual state of a card.
#[derive(Debug, Clone, Copy, PartialEq, Eq, Structural)]
pub enum CardState {
    Normal,
    Hovered,
    /// Selected (lit with the accent glow).
    Selected,
    Disabled,
}

impl Default for CardState {
    fn default() -> (r: Self)
        ensures
            r == CardState::Normal,
    {
        CardState::Normal
    }
}

/// The direction of a statistic's trend.
#[derive(Debug, Clone, Copy, PartialEq, Eq, Structural)]
pub enum Trend {
    Up,
    Down,
    Stable,
}

/// A card under construction.
pub struct SoryCard<E, Message> {
    pub header: Option<E>,
    pub body: E,
    pub footer: Option<E>,
    pub state: CardState,
    pub on_press: Option<Message>,
    pub on_hover_enter: Option<Message>,
    pub on_hover_exit: Option<Message>,
    pub width: Length,
    pub height: Length,
    pub max_width: Option<Pixels>,
    pub max_height: Option<Pixels>,
    pub padding: Padding,
    pub compact: bool,
    pub animated: bool,
}

impl<E, Message> SoryCard<E, Message> {
    /// A card around a body: normal, full width, shrunk height, padded 16
    /// by 16, animated, with nothing else set.
    pub fn new(body: E) -> (r: Self)
        ensures
            r.header is None,
            r.body == body,
            r.footer is None,
            r.state == CardState::Normal,
            r.on_press is None,
            r.on_hover_enter is None,
            r.on_hover_exit is None,
            r.max_width is None,
            r.max_height is None,
            r.padding == padding_vh(16, 16),
            !r.compact,
            r.animated,
    {
        SoryCard {
            header: None,
            body,
            footer: None,
            state: CardState::Normal,
            on_press: None,
            on_hover_enter: None,
            on_hover_exit: None,
            width: length_fill(),
            height: length_shrink(),
            max_width: None,
            max_height: None,
            padding: padding_from_vh(16, 16),
            compact: false,
            animated: true,
        }
    }

    /// A compact card: as [`SoryCard::new`], padded 10 by 12.
    pub fn compact(body: E) -> (r: Self)
        ensures
            r.header is None,
            r.body == body,
            r.footer is None,
            r.state == CardState::Normal,
            r.on_press is None,
            r.on_hover_enter is None,
            r.on_hover_exit is None,
            r.max_width is None,
            r.max_height is None,
            r.padding == padding_vh(10, 12),
            r.compact,
            r.animated,
    {
        SoryCard {
            header: None,
            body,
            footer: None,
            state: CardState::Normal,
            on_press: None,
            on_hover_enter: None,
            on_hover_exit: None,
            width: length_fill(),
            height: length_shrink(),
            max_width: None,
            max_height: None,
            padding: padding_from_vh(10, 12),
            compact: true,
            animated: true,
        }
    }

    pub fn header(self, header: E) -> (r: Self)
        ensures
            r == (SoryCard { header: Some(header), ..self }),
    {
        SoryCard { header: Some(header), ..self }
    }

    pub fn footer(self, footer: E) -> (r: Self)
        ensures
            r == (SoryCard { footer: Some(footer), ..self }),
    {
        SoryCard { footer: Some(footer), ..self }
    }

    pub fn state(self, state: CardState) -> (r: Self)
        ensures
            r == (SoryCard { state, ..self }),
    {
        SoryCard { state, ..self }
    }

    /// Makes the card pressable.
    pub fn on_press(self, msg: Message) -> (r: Self)
        ensures
            r == (SoryCard { on_press: Some(msg), ..self }),
    {
        SoryCard { on_press: Some(msg), ..self }
    }

    pub fn on_hover_enter(self, msg: Message) -> (r: Self)
        ensures
            r == (SoryCard { on_hover_enter: Some(msg), ..self }),
    {
        SoryCard { on_hover_enter: Some(msg), ..self }
    }

    pub fn on_hover_exit(self, msg: Message) -> (r: Self)
        ensures
            r == (SoryCard { on_hover_exit: Some(msg), ..self }),
    {
        SoryCard { on_hover_exit: Some(msg), ..self }
    }

    pub fn width(self, width: Length) -> (r: Self)
        ensures
            r == (SoryCard { width, ..self }),
    {
        SoryCard { width, ..self }
    }

    pub fn height(self, height: Length) -> (r: Self)
        ensures
            r == (SoryCard { height, ..self }),
    {
        SoryCard { height, ..self }
    }

    pub fn max_width(self, max_width: Pixels) -> (r: Self)
        ensures
            r == (SoryCard { max_width: Some(max_width), ..self }),
    {
        SoryCard { max_width: Some(max_width), ..self }
    }

    pub fn max_height(self, max_height: Pixels) -> (r: Self)
        ensures
            r == (SoryCard { max_height: Some(max_height), ..self }),
    {
        SoryCard { max_height: Some(max_height), ..self }
    }

    pub fn padding(self, padding: Padding) -> (r: Self)
        ensures
            r == (SoryCard { padding, ..self }),
    {
        SoryCard { padding, ..self }
    }

    /// Turns the compact mode on (which also sets the padding to 10 by 12)
    /// or off (which keeps the padding).
    pub fn compact_mode(self, compact: bool) -> (r: Self)
        ensures
            compact ==> r == (SoryCard { compact: true, padding: padding_vh(10, 12), ..self }),
            !compact ==> r == (SoryCard { compact: false, ..self }),
    {
        if compact {
            SoryCard { compact: true, padding: padding_from_vh(10, 12), ..self }
        } else {
            SoryCard { compact: false, ..self }
        }
    }

    /// Turns the hover and press micro-interactions on or off.
    pub fn animated(self, animated: bool) -> (r: Self)
        ensures
            r == (SoryCard { animated, ..self }),
    {
        SoryCard { animated, ..self }
    }
}

/// The look of a card in each state: a folder card, lit when hovered, with
/// the accent when selected, and a plain tile when disabled.
#[derive(Debug, Clone, Copy, PartialEq, Eq, Structural)]
pub enum CardLook {
    Folder,
    FolderHovered,
    FolderSelected,
    Tile,
}

pub open spec fn card_look(s: CardState) -> CardLook {
    match s {
        CardState::Normal => CardLook::Folder,
        CardState::Hovered => CardLook::FolderHovered,
        CardState::Selected => CardLook::FolderSelected,
        CardState::Disabled => CardLook::Tile,
    }
}

/// What a card shows: its look, the header, body and footer stacked in
/// that order, its size and padding, the message a press sends, and whether
/// it lifts when pointed at.
pub struct CardLayout<E, Message> {
    pub look: CardLook,
    pub header: Option<E>,
    pub body: E,
    pub footer: Option<E>,
    pub padding: Padding,
    pub width: Length,
    pub height: Length,
    pub max_width: Option<Pixels>,
    pub max_height: Option<Pixels>,
    pub on_press: Option<Message>,
    pub animated: bool,
}

impl<E, Message> SoryCard<E, Message> {
    /// The card's layout. The hover messages are not wired here: the
    /// application maps them itself.
    pub fn layout(self) -> (r: CardLayout<E, Message>)
        ensures
            r.look == card_look(self.state),
            r.header == self.header,
            r.body == self.body,
            r.footer == self.footer,
            r.padding == self.padding,
            r.width == self.width,
            r.height == self.height,
            r.max_width == self.max_width,
            r.max_height == self.max_height,
            r.on_press == self.on_press,
            r.animated == self.animated,
    {
        let look = match self.state {
            CardState::Normal => CardLook::Folder,
            CardState::Hovered => CardLook::FolderHovered,
            CardState::Selected => CardLook::FolderSelected,
            CardState::Disabled => CardLook::Tile,
        };
        CardLayout {
            look,
            header: self.header,
            body: self.body,
            footer: self.footer,
            padding: self.padding,
            width: self.width,
            height: self.height,
            max_width: self.max_width,
            max_height: self.max_height,
            on_press: self.on_press,
            animated: self.animated,
        }
    }
}

/// The rows of a group of cards laid out in `columns` columns, filled row
/// by row with the last row padded with empty cells; `None` for no cards,
/// which shows an empty-state notice instead.
pub fn card_group_rows<E>(columns: usize, cards: Vec<E>) -> (r: Option<Vec<Vec<Option<E>>>>)
    requires
        cards@.len() > 0 ==> columns > 0,
    ensures
        r is None <==> cards@.len() == 0,
        r matches Some(rows) ==> {
            &&& (rows@.len() - 1) * columns < cards@.len() <= rows@.len() * columns
            &&& forall|i: int| 0 <= i < rows@.len() ==> (#[trigger] rows@[i])@.len() == columns
            &&& forall|i: int, c: int| 0 <= i < rows@.len() && 0 <= c < columns
                ==> #[trigger] rows@[i]@[c] == grid_cell(cards@, columns as nat, i, c)
        },
{
    if cards.len() == 0 {
        None
    } else {
        Some(sory_grid_rows(columns, cards))
    }
}

/// A card without interaction: a plain tile around its body.
pub struct StaticCard<E> {
    pub body: E,
    pub look: CardLook,
}

/// A card without interaction around a body, drawn as a tile.
pub fn static_card<E>(body: E) -> (r: StaticCard<E>)
    ensures
        r.body == body,
        r.look == CardLook::Tile,
{
    StaticCard { body, look: CardLook::Tile }
}

/// An information card: an icon beside a title and its description.
pub struct InfoCard<E> {
    pub icon: E,
    pub title: String,
    pub description: String,
}

/// A card with an icon, a title and a description.
pub fn info_card<E>(icon: E, title: &str, description: &str) -> (r: InfoCard<E>)
    ensures
        r.icon == icon,
        r.title@ == title@,
        r.description@ == description@,
{
    InfoCard { icon, title: String::from_str(title), description: String::from_str(description) }
}

/// The mark of each trend: an arrow up, down, or to the right.
pub open spec fn trend_mark(t: Trend) -> char {
    match t {
        Trend::Up => '\u{2191}',
        Trend::Down => '\u{2193}',
        Trend::Stable => '\u{2192}',
    }
}

/// A statistic card: a value with the mark of its trend, above its label,
/// padded 12 by 16.
pub struct StatCard {
    pub value: String,
    pub trend_mark: char,
    pub label: String,
    pub padding: Padding,
}

/// A card showing a value, its label and its trend.
pub fn stat_card(value: &str, label: &str, trend: Trend) -> (r: StatCard)
    ensures
        r.value@ == value@,
        r.label@ == label@,
        r.trend_mark == trend_mark(trend),
        r.padding == padding_vh(12, 16),
{
    let mark = match trend {
        Trend::Up => '\u{2191}',
        Trend::Down => '\u{2193}',
        Trend::Stable => '\u{2192}',
    };
    StatCard {
        value: String::from_str(value),
        trend_mark: mark,
        label: String::from_str(label),
        padding: padding_from_vh(12, 16),
    }
}

/// A card that can be selected: a check mark (`✓` when selected, `○`
/// otherwise) beside the body, drawn lit when selected, padded 10 by 14,
/// sending its message when pressed.
pub struct SelectableCard<E, Message> {
    pub body: E,
    pub lit: bool,
    pub mark: char,
    pub padding: Padding,
    pub on_toggle: Message,
}

/// A card with a check mark that is selected or not.
pub fn selectable_card<E, Message>(body: E, selected: bool, on_toggle: Message) -> (r: SelectableCard<E, Message>)
    ensures
        r.body == body,
        r.lit == selected,
        r.mark == (if selected { '\u{2713}' } else { '\u{25cb}' }),
        r.padding == padding_vh(10, 14),
        r.on_toggle == on_toggle,
{
    let mark = if selected { '\u{2713}' } else { '\u{25cb}' };
    SelectableCard { body, lit: selected, mark, padding: padding_from_vh(10, 14), on_toggle }
}

/// A card with an element laid over its top-right corner.
pub struct SoryCardOverlay<E, Message> {
    pub card: SoryCard<E, Message>,
    pub overlay: E,
}

impl<E, Message> SoryCardOverlay<E, Message> {
    /// A plain card around `body`, with `overlay` over it.
    pub fn new(body: E, overlay: E) -> (r: Self)
        ensures
            r.overlay == overlay,
            r.card.header is None,
            r.card.body == body,
            r.card.footer is None,
            r.card.state == CardState::Normal,
            r.card.on_press is None,
            r.card.on_hover_enter is None,
            r.card.on_hover_exit is None,
            r.card.max_width is None,
            r.card.max_height is None,
            r.card.padding == padding_vh(16, 16),
            !r.card.compact,
            r.card.animated,
    {
        SoryCardOverlay { card: SoryCard::new(body), overlay }
    }

    /// The inner card.
    pub fn card(self) -> (r: SoryCard<E, Message>)
        ensures
            r == self.card,
    {
        self.card
    }
}

} // verus!

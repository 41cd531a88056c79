//! Popovers: open/closed state, placement, and menu items.
use vstd::prelude::*;

verus! {

/// Where a popover is placed relative to its trigger.
#[derive(Debug, Clone, Copy, PartialEq, Eq, Structural)]
pub enum PopoverPosition {
    /// Below the trigger, aligned left.
    BottomStart,
    /// Below the trigger, centered.
    BottomCenter,
    /// Below the trigger, aligned right.
    BottomEnd,
    /// Above the trigger, aligned left.
    TopStart,
    /// Above the trigger, centered.
    TopCenter,
    /// Above the trigger, aligned right.
    TopEnd,
    /// Right of the trigger, aligned top.
    RightStart,
    /// Right of the trigger, centered.
    RightCenter,
    /// Right of the trigger, aligned bottom.
    RightEnd,
    /// Left of the trigger, aligned top.
    LeftStart,
    /// Left of the trigger, centered.
    LeftCenter,
    /// Left of the trigger, aligned bottom.
    LeftEnd,
}

impl Default for PopoverPosition {
    fn default() -> (r: Self)
        ensures
            r == PopoverPosition::BottomStart,
    {
        PopoverPosition::BottomStart
    }
}

/// Whether a popover is shown.
#[derive(Debug, Clone, Copy, PartialEq, Eq, Structural)]
pub enum PopoverState {
    /// Popover closed.
    Closed,
    /// Popover open.
    Open,
}

impl Default for PopoverState {
    fn default() -> (r: Self)
        ensures
            r == PopoverState::Closed,
    {
        PopoverState::Closed
    }
}

impl PopoverState {
    pub open spec fn is_open_spec(self) -> bool {
        self == PopoverState::Open
    }

    /// Whether the popover is open.
    pub fn is_open(&self) -> (r: bool)
        ensures
            r == self.is_open_spec(),
    {
        match self {
            PopoverState::Open => true,
            PopoverState::Closed => false,
        }
    }

    /// The open state.
    pub fn open(&self) -> (r: Self)
        ensures
            r == PopoverState::Open,
    {
        PopoverState::Open
    }

    /// The closed state.
    pub fn close(&self) -> (r: Self)
        ensures
            r == PopoverState::Closed,
    {
        PopoverState::Closed
    }

    /// The other state.
    pub fn toggle(&self) -> (r: Self)
        ensures
            r.is_open_spec() == !self.is_open_spec(),
    {
        match self {
            PopoverState::Open => PopoverState::Closed,
            PopoverState::Closed => PopoverState::Open,
        }
    }
}

/// Toggling twice gives back the state one started from.
pub proof fn lemma_popover_toggle_involutive(s: PopoverState, t: PopoverState, u: PopoverState)
    requires
        t.is_open_spec() == !s.is_open_spec(),
        u.is_open_spec() == !t.is_open_spec(),
    ensures
        u == s,
{
}

/// An item of a popover menu.
#[derive(Debug, Clone)]
pub struct PopoverMenuItem<Message> {
    pub label: String,
    pub shortcut: Option<String>,
    pub on_press: Option<Message>,
    pub disabled: bool,
    pub separator_after: bool,
}

impl<Message> PopoverMenuItem<Message> {
    /// An enabled item with a label, no shortcut and no message.
    pub fn new(label: &str) -> (r: Self)
        ensures
            r.label@ == label@,
            r.shortcut is None,
            r.on_press is None,
            !r.disabled,
            !r.separator_after,
    {
        PopoverMenuItem {
            label: String::from_str(label),
            shortcut: None,
            on_press: None,
            disabled: false,
            separator_after: false,
        }
    }

    /// Adds a keyboard shortcut hint.
    pub fn shortcut(self, shortcut: &str) -> (r: Self)
        ensures
            r.shortcut matches Some(s) && s@ == shortcut@,
            r.label == self.label,
            r.on_press == self.on_press,
            r.disabled == self.disabled,
            r.separator_after == self.separator_after,
    {
        PopoverMenuItem { shortcut: Some(String::from_str(shortcut)), ..self }
    }

    /// Sets the message sent when the item is pressed.
    pub fn on_press(self, msg: Message) -> (r: Self)
        ensures
            r.on_press == Some(msg),
            r.label == self.label,
            r.shortcut == self.shortcut,
            r.disabled == self.disabled,
            r.separator_after == self.separator_after,
    {
        PopoverMenuItem { on_press: Some(msg), ..self }
    }

    /// Disables the item.
    pub fn disabled(self) -> (r: Self)
        ensures
            r.disabled,
            r.label == self.label,
            r.shortcut == self.shortcut,
            r.on_press == self.on_press,
            r.separator_after == self.separator_after,
    {
        PopoverMenuItem { disabled: true, ..self }
    }

    /// Draws a separator after the item.
    pub fn separator_after(self) -> (r: Self)
        ensures
            r.separator_after,
            r.label == self.label,
            r.shortcut == self.shortcut,
            r.on_press == self.on_press,
            r.disabled == self.disabled,
    {
        PopoverMenuItem { separator_after: true, ..self }
    }
}

/// A menu item with a label and a message.
pub fn popover_menu_item<Message>(label: &str, on_press: Message) -> (r: PopoverMenuItem<Message>)
    ensures
        r.label@ == label@,
        r.shortcut is None,
        r.on_press == Some(on_press),
        !r.disabled,
        !r.separator_after,
{
    PopoverMenuItem::new(label).on_press(on_press)
}

/// A menu item with a label, a shortcut hint and a message.
pub fn popover_menu_item_with_shortcut<Message>(label: &str, shortcut: &str, on_press: Message) -> (r: PopoverMenuItem<Message>)
    ensures
        r.label@ == label@,
        r.shortcut matches Some(s) && s@ == shortcut@,
        r.on_press == Some(on_press),
        !r.disabled,
        !r.separator_after,
{
    PopoverMenuItem::new(label).shortcut(shortcut).on_press(on_press)
}

/// A separator: an empty item followed by a separator line.
pub fn popover_menu_separator<Message>() -> (r: PopoverMenuItem<Message>)
    ensures
        r.label@ == Seq::<char>::empty(),
        r.shortcut is None,
        r.on_press is None,
        !r.disabled,
        r.separator_after,
{
    proof {
        reveal_strlit("");
    }
    PopoverMenuItem::new("").separator_after()
}

/// A popover holding a text: its trigger, the text, its state, the message
/// that closes it, and its largest width of 300.
pub struct TextPopover<E, Message> {
    pub trigger: E,
    pub text: String,
    pub state: PopoverState,
    pub on_close: Message,
    pub max_width: u32,
}

/// A popover with a text.
pub fn simple_popover<E, Message>(trigger: E, text_content: &str, state: PopoverState, on_close: Message) -> (r: TextPopover<E, Message>)
    ensures
        r.trigger == trigger,
        r.text@ == text_content@,
        r.state == state,
        r.on_close == on_close,
        r.max_width == 300,
{
    TextPopover { trigger, text: String::from_str(text_content), state, on_close, max_width: 300 }
}

/// One row of a popover menu: the item's label and shortcut hint, the
/// message sent when it is pressed (none for a disabled item or one without
/// a message), and whether a separator line follows.
#[derive(Debug, Clone)]
pub struct MenuRow<Message> {
    pub label: String,
    pub shortcut: Option<String>,
    pub on_press: Option<Message>,
    pub separator_after: bool,
}

pub open spec fn menu_row_spec<M>(item: PopoverMenuItem<M>) -> MenuRow<M> {
    MenuRow {
        label: item.label,
        shortcut: item.shortcut,
        on_press: if item.disabled { None } else { item.on_press },
        separator_after: item.separator_after,
    }
}

pub open spec fn menu_rows_spec<M>(items: Seq<PopoverMenuItem<M>>) -> Seq<MenuRow<M>> {
    items.map_values(|i: PopoverMenuItem<M>| menu_row_spec(i))
}

/// A popover holding a menu: its trigger, one row per item in order, its
/// state, the message that closes it, and its fixed width of 220.
pub struct MenuPopover<E, Message> {
    pub trigger: E,
    pub rows: Vec<MenuRow<Message>>,
    pub state: PopoverState,
    pub on_close: Message,
    pub width: u32,
}

/// A popover with a menu of items.
pub fn menu_popover<E, Message>(
    trigger: E,
    items: Vec<PopoverMenuItem<Message>>,
    state: PopoverState,
    on_close: Message,
) -> (r: MenuPopover<E, Message>)
    ensures
        r.trigger == trigger,
        r.rows@ == menu_rows_spec(items@),
        r.state == state,
        r.on_close == on_close,
        r.width == 220,
{
    let ghost all = items@;
    let mut rest = items;
    let mut rows: Vec<MenuRow<Message>> = Vec::new();
    while rest.len() > 0
        invariant
            rows@.len() + rest@.len() == all.len(),
            rest@ == all.skip(rows@.len() as int),
            rows@ == menu_rows_spec(all.take(rows@.len() as int)),
        decreases rest.len(),
    {
        let ghost k = rows@.len() as int;
        let item = rest.remove(0);
        proof {
            assert(item == all[k]) by {
                assert(all.skip(k)[0] == all[k]);
            }
            assert(rest@ =~= all.skip(k + 1));
            assert(all.take(k + 1) =~= all.take(k).push(item));
        }
        let on_press = if item.disabled { None } else { item.on_press };
        rows.push(MenuRow {
            label: item.label,
            shortcut: item.shortcut,
            on_press,
            separator_after: item.separator_after,
        });
        proof {
            assert(rows@ =~= menu_rows_spec(all.take(k + 1)));
        }
    }
    proof {
        assert(all.take(all.len() as int) =~= all);
    }
    MenuPopover { trigger, rows, state, on_close, width: 220 }
}

} // verus!

//! Dropdown menus.
use vstd::prelude::*;
use iced_core::Length;
use crate::measure::length_fill;

verus! {

/// An entry of a dropdown. An entry with an empty label and no message is a
/// separator.
pub struct DropdownItem<E, Message> {
    pub label: String,
    pub icon: Option<E>,
    pub on_select: Option<Message>,
    pub disabled: bool,
}

impl<E, Message> DropdownItem<E, Message> {
    /// Whether the entry is drawn as a separator line.
    pub fn is_separator(&self) -> (r: bool)
        ensures
            r == (self.label@.len() == 0 && self.on_select is None),
    {
        self.label.as_str().unicode_len() == 0 && self.on_select.is_none()
    }
}

/// A dropdown: a trigger showing the label (or the selected entry) and,
/// when open, the list of entries.
pub struct ModernDropdown<E, Message> {
    pub label: String,
    pub items: Vec<DropdownItem<E, Message>>,
    pub selected: Option<usize>,
    pub is_open: bool,
    pub on_toggle: Option<Message>,
    pub width: Length,
}

/// What the trigger shows: the label of the selected entry if there is one
/// at that index, or else the dropdown's label.
pub open spec fn trigger_text<E, Message>(d: ModernDropdown<E, Message>) -> Seq<char> {
    match d.selected {
        Some(i) => if i < d.items@.len() {
            d.items@[i as int].label@
        } else {
            d.label@
        },
        None => d.label@,
    }
}

impl<E, Message> ModernDropdown<E, Message> {
    /// A closed, full-width dropdown with a label and no entries.
    pub fn new(label: &str) -> (r: Self)
        ensures
            r.label@ == label@,
            r.items@.len() == 0,
            r.selected is None,
            !r.is_open,
            r.on_toggle is None,
    {
        ModernDropdown {
            label: String::from_str(label),
            items: Vec::new(),
            selected: None,
            is_open: false,
            on_toggle: None,
            width: length_fill(),
        }
    }

    pub fn width(self, width: Length) -> (r: Self)
        ensures
            r == (ModernDropdown { width, ..self }),
    {
        ModernDropdown { width, ..self }
    }

    pub fn selected(self, index: usize) -> (r: Self)
        ensures
            r == (ModernDropdown { selected: Some(index), ..self }),
    {
        ModernDropdown { selected: Some(index), ..self }
    }

    pub fn open(self, open: bool) -> (r: Self)
        ensures
            r == (ModernDropdown { is_open: open, ..self }),
    {
        ModernDropdown { is_open: open, ..self }
    }

    pub fn on_toggle(self, msg: Message) -> (r: Self)
        ensures
            r == (ModernDropdown { on_toggle: Some(msg), ..self }),
    {
        ModernDropdown { on_toggle: Some(msg), ..self }
    }

    fn with_item(self, item: DropdownItem<E, Message>) -> (r: Self)
        ensures
            r.items@ == self.items@.push(item),
            r.label == self.label,
            r.selected == self.selected,
            r.is_open == self.is_open,
            r.on_toggle == self.on_toggle,
            r.width == self.width,
    {
        let mut s = self;
        s.items.push(item);
        s
    }

    /// Adds an entry.
    pub fn push_item(self, label: &str, on_select: Message) -> (r: Self)
        ensures
            r.items@.len() == self.items@.len() + 1,
            r.items@.drop_last() == self.items@,
            r.items@.last().label@ == label@,
            r.items@.last().icon is None,
            r.items@.last().on_select == Some(on_select),
            !r.items@.last().disabled,
            r.label == self.label && r.selected == self.selected && r.is_open == self.is_open,
            r.on_toggle == self.on_toggle && r.width == self.width,
    {
        let r = self.with_item(DropdownItem { label: String::from_str(label), icon: None, on_select: Some(on_select), disabled: false });
        proof {
            assert(r.items@.drop_last() =~= self.items@);
        }
        r
    }

    /// Adds an entry with an icon.
    pub fn push_item_with_icon(self, label: &str, icon: E, on_select: Message) -> (r: Self)
        ensures
            r.items@.len() == self.items@.len() + 1,
            r.items@.drop_last() == self.items@,
            r.items@.last().label@ == label@,
            r.items@.last().icon == Some(icon),
            r.items@.last().on_select == Some(on_select),
            !r.items@.last().disabled,
            r.label == self.label && r.selected == self.selected && r.is_open == self.is_open,
            r.on_toggle == self.on_toggle && r.width == self.width,
    {
        let r = self.with_item(DropdownItem { label: String::from_str(label), icon: Some(icon), on_select: Some(on_select), disabled: false });
        proof {
            assert(r.items@.drop_last() =~= self.items@);
        }
        r
    }

    /// Adds a disabled entry.
    pub fn push_disabled_item(self, label: &str) -> (r: Self)
        ensures
            r.items@.len() == self.items@.len() + 1,
            r.items@.drop_last() == self.items@,
            r.items@.last().label@ == label@,
            r.items@.last().icon is None,
            r.items@.last().on_select is None,
            r.items@.last().disabled,
            r.label == self.label && r.selected == self.selected && r.is_open == self.is_open,
            r.on_toggle == self.on_toggle && r.width == self.width,
    {
        let r = self.with_item(DropdownItem { label: String::from_str(label), icon: None, on_select: None, disabled: true });
        proof {
            assert(r.items@.drop_last() =~= self.items@);
        }
        r
    }

    /// Adds a separator line.
    pub fn push_separator(self) -> (r: Self)
        ensures
            r.items@.len() == self.items@.len() + 1,
            r.items@.drop_last() == self.items@,
            r.items@.last().label@.len() == 0,
            r.items@.last().icon is None,
            r.items@.last().on_select is None,
            r.items@.last().disabled,
            r.label == self.label && r.selected == self.selected && r.is_open == self.is_open,
            r.on_toggle == self.on_toggle && r.width == self.width,
    {
        let r = self.with_item(DropdownItem { label: String::new(), icon: None, on_select: None, disabled: true });
        proof {
            assert(r.items@.drop_last() =~= self.items@);
        }
        r
    }

    /// Adds an entry for a destructive action.
    pub fn push_danger_item(self, label: &str, on_select: Message) -> (r: Self)
        ensures
            r.items@.len() == self.items@.len() + 1,
            r.items@.drop_last() == self.items@,
            r.items@.last().label@ == label@,
            r.items@.last().icon is None,
            r.items@.last().on_select == Some(on_select),
            !r.items@.last().disabled,
            r.label == self.label && r.selected == self.selected && r.is_open == self.is_open,
            r.on_toggle == self.on_toggle && r.width == self.width,
    {
        let r = self.with_item(DropdownItem { label: String::from_str(label), icon: None, on_select: Some(on_select), disabled: false });
        proof {
            assert(r.items@.drop_last() =~= self.items@);
        }
        r
    }

    /// The text shown on the trigger.
    pub fn selected_label(&self) -> (r: String)
        ensures
            r@ == trigger_text(*self),
    {
        match self.selected {
            Some(i) => {
                if i < self.items.len() {
                    return self.items[i].label.clone();
                }
                self.label.clone()
            },
            None => self.label.clone(),
        }
    }
}

/// An entry of an open dropdown's menu: a separator line, or an entry with
/// its icon and label and the message a press sends (none when disabled).
pub enum MenuEntry<E, Message> {
    Separator,
    Entry { icon: Option<E>, label: String, on_press: Option<Message> },
}

/// How an item shows in the menu: a separator as a line, a disabled entry
/// without a message, an enabled entry with its message; an enabled entry
/// without a message is left out.
pub open spec fn item_entries<E, M>(item: DropdownItem<E, M>) -> Seq<MenuEntry<E, M>> {
    if item.label@.len() == 0 && item.on_select is None {
        seq![MenuEntry::Separator]
    } else if item.disabled {
        seq![MenuEntry::Entry { icon: item.icon, label: item.label, on_press: None }]
    } else {
        match item.on_select {
            Some(m) => seq![MenuEntry::Entry { icon: item.icon, label: item.label, on_press: Some(m) }],
            None => Seq::empty(),
        }
    }
}

pub open spec fn menu_spec<E, M>(items: Seq<DropdownItem<E, M>>) -> Seq<MenuEntry<E, M>>
    decreases items.len(),
{
    if items.len() == 0 {
        Seq::empty()
    } else {
        menu_spec(items.drop_last()) + item_entries(items.last())
    }
}

/// What a dropdown shows: the trigger's text, the message a press on the
/// trigger sends, its width, and the menu's entries when it is open.
pub struct DropdownLayout<E, Message> {
    pub trigger_text: String,
    pub trigger_press: Option<Message>,
    pub width: Length,
    pub menu: Option<Vec<MenuEntry<E, Message>>>,
}

impl<E, Message> ModernDropdown<E, Message> {
    /// The dropdown's layout.
    pub fn layout(self) -> (r: DropdownLayout<E, Message>)
        ensures
            r.trigger_text@ == trigger_text(self),
            r.trigger_press == self.on_toggle,
            r.width == self.width,
            !self.is_open ==> r.menu is None,
            self.is_open ==> (r.menu matches Some(m) && m@ == menu_spec(self.items@)),
    {
        let text = self.selected_label();
        if !self.is_open {
            return DropdownLayout { trigger_text: text, trigger_press: self.on_toggle, width: self.width, menu: None };
        }
        let ghost all = self.items@;
        let mut rest = self.items;
        let mut menu: Vec<MenuEntry<E, Message>> = Vec::new();
        let mut n: usize = 0;
        proof {
            assert(all.len() == rest.len());
            assert(all.take(0) =~= Seq::<DropdownItem<E, Message>>::empty());
        }
        while rest.len() > 0
            invariant
                n + rest@.len() == all.len(),
                all.len() <= usize::MAX,
                rest@ == all.skip(n as int),
                menu@ == menu_spec(all.take(n as int)),
            decreases rest.len(),
        {
            let item = rest.remove(0);
            proof {
                assert(all.skip(n as int)[0] == all[n as int]);
                assert(rest@ =~= all.skip(n + 1));
                assert(all.take(n + 1).drop_last() =~= all.take(n as int));
                assert(all.take(n + 1).last() == item);
            }
            let ghost before = menu@;
            let separator = item.is_separator();
            let DropdownItem { label, icon, on_select, disabled } = item;
            if separator {
                menu.push(MenuEntry::Separator);
            } else if disabled {
                menu.push(MenuEntry::Entry { icon, label, on_press: None });
            } else {
                match on_select {
                    Some(m) => menu.push(MenuEntry::Entry { icon, label, on_press: Some(m) }),
                    None => {},
                }
            }
            proof {
                assert(menu@ =~= before + item_entries(item));
            }
            n = n + 1;
        }
        proof {
            assert(all.take(all.len() as int) =~= all);
        }
        DropdownLayout { trigger_text: text, trigger_press: self.on_toggle, width: self.width, menu: Some(menu) }
    }
}

} // verus!

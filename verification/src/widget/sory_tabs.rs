//! Tab bars of the SoryOS look.
use vstd::prelude::*;

verus! {

/// Tab bar styles.
#[derive(Debug, Clone, Copy, PartialEq, Eq, Structural)]
pub enum SoryTabStyle {
    /// An underline below the active tab.
    Underline,
    /// A filled pill behind the active tab.
    Pill,
    /// A border on the left of the active tab.
    BorderLeft,
}

/// One tab.
pub struct SoryTab<E, Message> {
    pub label: String,
    pub icon: Option<E>,
    pub badge: Option<E>,
    pub on_press: Option<Message>,
}

/// A tab bar: its tabs, the index of the active one, its style, and the
/// badge waiting for the next tab added.
pub struct SoryTabs<E, Message> {
    pub tabs: Vec<SoryTab<E, Message>>,
    pub active_index: usize,
    pub style: SoryTabStyle,
    pub pending_badge: Option<E>,
}

impl<E, Message> SoryTabs<E, Message> {
    /// An empty underlined tab bar whose first tab is active.
    pub fn new() -> (r: Self)
        ensures
            r.tabs@.len() == 0,
            r.active_index == 0,
            r.style == SoryTabStyle::Underline,
            r.pending_badge is None,
    {
        SoryTabs { tabs: Vec::new(), active_index: 0, style: SoryTabStyle::Underline, pending_badge: None }
    }

    pub fn style(self, style: SoryTabStyle) -> (r: Self)
        ensures
            r == (SoryTabs { style, ..self }),
    {
        SoryTabs { style, ..self }
    }

    /// Sets the index of the active tab.
    pub fn active(self, index: usize) -> (r: Self)
        ensures
            r == (SoryTabs { active_index: index, ..self }),
    {
        SoryTabs { active_index: index, ..self }
    }

    /// Adds a tab, with the badge set by [`SoryTabs::badge`] since the last
    /// tab was added.
    pub fn tab(self, label: &str, on_press: Message) -> (r: Self)
        ensures
            r.tabs@.len() == self.tabs@.len() + 1,
            r.tabs@.drop_last() == self.tabs@,
            r.tabs@.last().label@ == label@,
            r.tabs@.last().icon is None,
            r.tabs@.last().badge == self.pending_badge,
            r.tabs@.last().on_press == Some(on_press),
            r.active_index == self.active_index,
            r.style == self.style,
            r.pending_badge is None,
    {
        let SoryTabs { mut tabs, active_index, style, pending_badge } = self;
        tabs.push(SoryTab { label: String::from_str(label), icon: None, badge: pending_badge, on_press: Some(on_press) });
        proof {
            assert(tabs@.drop_last() =~= self.tabs@);
        }
        SoryTabs { tabs, active_index, style, pending_badge: None }
    }

    /// Adds a tab with an icon, with the badge set by [`SoryTabs::badge`]
    /// since the last tab was added.
    pub fn tab_with_icon(self, label: &str, icon: E, on_press: Message) -> (r: Self)
        ensures
            r.tabs@.len() == self.tabs@.len() + 1,
            r.tabs@.drop_last() == self.tabs@,
            r.tabs@.last().label@ == label@,
            r.tabs@.last().icon == Some(icon),
            r.tabs@.last().badge == self.pending_badge,
            r.tabs@.last().on_press == Some(on_press),
            r.active_index == self.active_index,
            r.style == self.style,
            r.pending_badge is None,
    {
        let SoryTabs { mut tabs, active_index, style, pending_badge } = self;
        tabs.push(SoryTab { label: String::from_str(label), icon: Some(icon), badge: pending_badge, on_press: Some(on_press) });
        proof {
            assert(tabs@.drop_last() =~= self.tabs@);
        }
        SoryTabs { tabs, active_index, style, pending_badge: None }
    }

    /// Puts a badge on the next tab added (replacing a badge set before
    /// and not yet used); the tabs already added keep theirs.
    pub fn badge(self, badge: E) -> (r: Self)
        ensures
            r == (SoryTabs { pending_badge: Some(badge), ..self }),
    {
        SoryTabs { pending_badge: Some(badge), ..self }
    }
}

/// One tab as the bar shows it: its icon, label and badge, whether it is
/// the active one (underlined, filled or marked on the left, by the style),
/// and the message sent when it is pressed.
pub struct TabCell<E, Message> {
    pub icon: Option<E>,
    pub label: String,
    pub badge: Option<E>,
    pub active: bool,
    pub on_press: Option<Message>,
}

/// What a tab bar shows: its style and one cell per tab, in order.
pub struct TabBarLayout<E, Message> {
    pub style: SoryTabStyle,
    pub cells: Vec<TabCell<E, Message>>,
}

pub open spec fn tab_cell<E, M>(t: SoryTab<E, M>, active: bool) -> TabCell<E, M> {
    TabCell { icon: t.icon, label: t.label, badge: t.badge, active, on_press: t.on_press }
}

/// The cells of the tabs: the tab at `active` is the active one.
pub open spec fn tab_cells<E, M>(tabs: Seq<SoryTab<E, M>>, active: usize) -> Seq<TabCell<E, M>> {
    Seq::new(tabs.len(), |i: int| tab_cell(tabs[i], i == active))
}

impl<E, Message> SoryTabs<E, Message> {
    /// The bar's layout. A badge set after the last tab shows nowhere.
    pub fn layout(self) -> (r: TabBarLayout<E, Message>)
        ensures
            r.style == self.style,
            r.cells@ == tab_cells(self.tabs@, self.active_index),
    {
        let ghost all = self.tabs@;
        let active = self.active_index;
        let mut rest = self.tabs;
        let mut cells: Vec<TabCell<E, Message>> = Vec::new();
        while rest.len() > 0
            invariant
                cells@.len() + rest@.len() == all.len(),
                rest@ == all.skip(cells@.len() as int),
                cells@ == tab_cells(all.take(cells@.len() as int), active),
            decreases rest.len(),
        {
            let i = cells.len();
            let tab = rest.remove(0);
            proof {
                assert(tab == all[i as int]) by {
                    assert(all.skip(i as int)[0] == all[i as int]);
                }
                assert(rest@ =~= all.skip(i + 1));
            }
            let SoryTab { label, icon, badge, on_press } = tab;
            cells.push(TabCell { icon, label, badge, active: i == active, on_press });
            proof {
                assert(cells@ =~= tab_cells(all.take(i + 1), active));
            }
        }
        proof {
            assert(all.take(all.len() as int) =~= all);
        }
        TabBarLayout { style: self.style, cells }
    }
}

/// A tab bar with one text tab per label; tab `i` sends `on_select(i)`.
pub fn simple_tabs<E, Message, F: Fn(usize) -> Message>(labels: &[&str], active: usize, on_select: F) -> (r: SoryTabs<E, Message>)
    requires
        forall|i: usize| i < labels@.len() ==> call_requires(on_select, (i,)),
    ensures
        r.tabs@.len() == labels@.len(),
        r.active_index == active,
        r.style == SoryTabStyle::Underline,
        forall|i: int| 0 <= i < labels@.len() ==> {
            &&& (#[trigger] r.tabs@[i]).label@ == labels@[i]@
            &&& r.tabs@[i].icon is None
            &&& r.tabs@[i].badge is None
            &&& r.tabs@[i].on_press matches Some(m) && call_ensures(on_select, (i as usize,), m)
        },
{
    let mut tabs = SoryTabs::new().active(active);
    let mut i: usize = 0;
    while i < labels.len()
        invariant
            i <= labels@.len(),
            tabs.tabs@.len() == i,
            tabs.active_index == active,
            tabs.style == SoryTabStyle::Underline,
            tabs.pending_badge is None,
            forall|i: usize| i < labels@.len() ==> call_requires(on_select, (i,)),
            forall|j: int| 0 <= j < i ==> {
                &&& (#[trigger] tabs.tabs@[j]).label@ == labels@[j]@
                &&& tabs.tabs@[j].icon is None
                &&& tabs.tabs@[j].badge is None
                &&& tabs.tabs@[j].on_press matches Some(m) && call_ensures(on_select, (j as usize,), m)
            },
        decreases labels.len() - i,
    {
        let msg = on_select(i);
        let ghost before = tabs.tabs@;
        tabs = tabs.tab(labels[i], msg);
        proof {
            assert forall|j: int| 0 <= j <= i implies {
                &&& (#[trigger] tabs.tabs@[j]).label@ == labels@[j]@
                &&& tabs.tabs@[j].icon is None
                &&& tabs.tabs@[j].badge is None
                &&& tabs.tabs@[j].on_press matches Some(m) && call_ensures(on_select, (j as usize,), m)
            } by {
                if j < i {
                    assert(tabs.tabs@.drop_last()[j] == before[j]);
                } else {
                    assert(tabs.tabs@[j] == tabs.tabs@.last());
                }
            }
        }
        i = i + 1;
    }
    tabs
}

} // verus!

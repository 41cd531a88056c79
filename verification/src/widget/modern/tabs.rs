//! Tab bars.
use vstd::prelude::*;

verus! {

/// One tab.
pub struct Tab<E, Message> {
    pub label: String,
    pub icon: Option<E>,
    pub on_press: Message,
    pub active: bool,
    pub badge: Option<String>,
}

/// Tab bar styles.
#[derive(Debug, Clone, Copy, PartialEq, Eq, Structural)]
pub enum TabStyle {
    Underline,
    Pill,
    Enclosed,
    Soft,
}

impl Default for TabStyle {
    fn default() -> (r: Self)
        ensures
            r == TabStyle::Underline,
    {
        TabStyle::Underline
    }
}

/// A tab bar.
pub struct ModernTabs<E, Message> {
    pub tabs: Vec<Tab<E, Message>>,
    pub style: TabStyle,
    pub fill: bool,
}

impl<E, Message> ModernTabs<E, Message> {
    /// An empty underlined tab bar that does not fill its width.
    pub fn new() -> (r: Self)
        ensures
            r.tabs@.len() == 0,
            r.style == TabStyle::Underline,
            !r.fill,
    {
        ModernTabs { tabs: Vec::new(), style: TabStyle::Underline, fill: false }
    }

    pub fn style(self, style: TabStyle) -> (r: Self)
        ensures
            r.tabs == self.tabs,
            r.style == style,
            r.fill == self.fill,
    {
        ModernTabs { style, ..self }
    }

    pub fn fill(self, fill: bool) -> (r: Self)
        ensures
            r.tabs == self.tabs,
            r.style == self.style,
            r.fill == fill,
    {
        ModernTabs { fill, ..self }
    }

    /// Adds a tab.
    pub fn push_tab(self, label: &str, active: bool, on_press: Message) -> (r: Self)
        ensures
            r.tabs@.len() == self.tabs@.len() + 1,
            r.tabs@.drop_last() == self.tabs@,
            r.tabs@.last().label@ == label@,
            r.tabs@.last().icon is None,
            r.tabs@.last().on_press == on_press,
            r.tabs@.last().active == active,
            r.tabs@.last().badge is None,
            r.style == self.style,
            r.fill == self.fill,
    {
        let mut s = self;
        s.tabs.push(Tab { label: String::from_str(label), icon: None, on_press, active, badge: None });
        proof {
            assert(s.tabs@.drop_last() =~= self.tabs@);
        }
        s
    }

    /// Adds a tab with an icon.
    pub fn push_tab_with_icon(self, label: &str, icon: E, active: bool, on_press: Message) -> (r: Self)
        ensures
            r.tabs@.len() == self.tabs@.len() + 1,
            r.tabs@.drop_last() == self.tabs@,
            r.tabs@.last().label@ == label@,
            r.tabs@.last().icon == Some(icon),
            r.tabs@.last().on_press == on_press,
            r.tabs@.last().active == active,
            r.tabs@.last().badge is None,
            r.style == self.style,
            r.fill == self.fill,
    {
        let mut s = self;
        s.tabs.push(Tab { label: String::from_str(label), icon: Some(icon), on_press, active, badge: None });
        proof {
            assert(s.tabs@.drop_last() =~= self.tabs@);
        }
        s
    }

    /// Adds a tab with a badge.
    pub fn push_tab_with_badge(self, label: &str, badge: &str, active: bool, on_press: Message) -> (r: Self)
        ensures
            r.tabs@.len() == self.tabs@.len() + 1,
            r.tabs@.drop_last() == self.tabs@,
            r.tabs@.last().label@ == label@,
            r.tabs@.last().icon is None,
            r.tabs@.last().on_press == on_press,
            r.tabs@.last().active == active,
            r.tabs@.last().badge matches Some(b) && b@ == badge@,
            r.style == self.style,
            r.fill == self.fill,
    {
        let mut s = self;
        s.tabs.push(Tab { label: String::from_str(label), icon: None, on_press, active, badge: Some(String::from_str(badge)) });
        proof {
            assert(s.tabs@.drop_last() =~= self.tabs@);
        }
        s
    }
}

} // verus!

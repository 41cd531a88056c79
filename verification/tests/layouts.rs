use iced_core::{Length, Pixels};

use sory_style::layout::dock::Dock;
use sory_style::layout::flex::{Flex, FlexAlign, FlexDirection, FlexJustify};
use sory_style::layout::grid::{Grid, GridSpan};
use sory_style::layout::stack::{Alignment, Stack};
use sory_style::widget::modern::avatar::{AvatarFace, AvatarSize, ModernAvatar};
use sory_style::widget::modern::breadcrumbs::{Breadcrumbs, CrumbPiece};
use sory_style::widget::modern::button::{ButtonLook, ButtonVariant, ModernButton};
use sory_style::widget::modern::card::ModernCard;
use sory_style::widget::modern::dialog::ModernDialog;
use sory_style::widget::modern::divider::ModernDivider;
use sory_style::widget::modern::dropdown::{MenuEntry, ModernDropdown};
use sory_style::widget::modern::skeleton::ModernSkeleton;
use sory_style::widget::modern::switch::ModernSwitch;
use sory_style::widget::sory_breadcrumb::{BreadcrumbSeparator, SoryBreadcrumb, TrailPiece};
use sory_style::widget::sory_card::CardLook;

#[test]
fn grid_layout_groups_rows() {
    let g = Grid::new(3).gap(4).push('a').push_span('b', GridSpan(2)).push_span('c', GridSpan(2)).push('d').push('e');
    let l = g.layout();
    assert_eq!(l.gap, 4);
    assert_eq!(l.rows, vec![vec!['a', 'b'], vec!['c', 'd'], vec!['e']]);
    let zero = Grid::new(0).push(1).push(2).layout();
    assert_eq!(zero.rows, vec![vec![1], vec![2]]);
    assert!(Grid::<u8>::new(2).layout().rows.is_empty());
    let wide = Grid::new(2).push_span('x', GridSpan(9)).push('y').layout();
    assert_eq!(wide.rows, vec![vec!['x'], vec!['y']]);
}

#[test]
fn flex_layout_keeps_children_in_order() {
    let f = Flex::column().align(FlexAlign::Center).justify(FlexJustify::SpaceBetween).spacing(6).push(1).push(2);
    assert_eq!(f.justify, FlexJustify::SpaceBetween);
    let l = f.layout();
    assert_eq!((l.direction, l.spacing, l.align, l.children), (FlexDirection::Column, 6, FlexAlign::Center, vec![1, 2]));
    let r = Flex::<u8>::row();
    assert_eq!((r.direction, r.align, r.spacing), (FlexDirection::Row, FlexAlign::Start, 0));
}

#[test]
fn dock_layout_places_sides() {
    let d = Dock::new("center").north("top").west("left").west_width(Length::Fixed(120.0)).spacing(Pixels(3.0));
    assert_eq!(d.spacing, Some(Pixels(3.0)));
    let l = d.layout();
    assert_eq!(l.top, Some(("top", Length::Shrink)));
    assert_eq!(l.left, Some(("left", Length::Fixed(120.0))));
    assert_eq!(l.center, "center");
    assert!(l.right.is_none() && l.bottom.is_none());
}

#[test]
fn stack_layout_layers_every_child() {
    let s = Stack::new().push("base").push_aligned("badge", Alignment::End, Alignment::Start);
    let l = s.layout();
    assert_eq!(l.layers.len(), 2);
    assert_eq!(l.layers[0].element, "base");
    assert_eq!((l.layers[1].element, l.layers[1].align_x, l.layers[1].align_y), ("badge", Alignment::End, Alignment::Start));
    assert_eq!(l.width, Length::Fill);
}

#[test]
fn modern_dialog_layout_drops_empty_action_row() {
    let d: ModernDialog<&str, u8> = ModernDialog::new("body").title("t").on_close(4);
    assert_eq!(d.max_width, Pixels(480.0));
    let l = d.layout();
    assert!(l.action_row.is_none());
    assert_eq!((l.title, l.body, l.backdrop_press), (Some("t"), "body", Some(4)));
    let l = ModernDialog::<&str, u8>::new("b").action("ok").action("no").layout();
    assert_eq!(l.action_row, Some(vec!["ok", "no"]));
    assert_eq!(l.backdrop_press, None);
}

#[test]
fn divider_and_skeleton_sizes() {
    let d = ModernDivider::new();
    assert_eq!(d.size(), (Pixels(8.0), Pixels(1.0)));
    assert_eq!(d.vertical(true).spacing(Pixels(20.0)).size(), (Pixels(1.0), Pixels(20.0)));
    let s = ModernSkeleton::new().lines(3).width(Pixels(50.0));
    assert_eq!(s.placeholders(), vec![(Pixels(50.0), Pixels(12.0)); 3]);
    assert_eq!(ModernSkeleton::new().placeholders(), vec![(Pixels(100.0), Pixels(12.0))]);
}

#[test]
fn switch_press_asks_for_the_other_state() {
    let s = ModernSwitch::<String, fn(bool) -> String>::new()
        .label("Wi-Fi")
        .toggled(true)
        .on_toggle(|on: bool| format!("on={}", on));
    assert_eq!(s.size, Pixels(24.0));
    let l = s.layout();
    assert!(l.checked);
    assert_eq!(l.label.as_deref(), Some("Wi-Fi"));
    assert_eq!(l.on_press.as_deref(), Some("on=false"));
    let plain = ModernSwitch::<String, fn(bool) -> String>::new().layout();
    assert!(plain.on_press.is_none() && !plain.checked);
}

#[test]
fn breadcrumb_trail_separates_segments() {
    let b: SoryBreadcrumb<&str, u8> = SoryBreadcrumb::new().separator(BreadcrumbSeparator::Slash).link("Home", 1).current("Docs");
    let l = b.layout();
    assert_eq!(l.separator, "/");
    let kinds: Vec<&str> = l
        .pieces
        .iter()
        .map(|p| match p {
            TrailPiece::Segment(_) => "seg",
            TrailPiece::Separator(_) => "sep",
        })
        .collect();
    assert_eq!(kinds, vec!["seg", "sep", "seg"]);
    assert_eq!(SoryBreadcrumb::<&str, u8>::new().layout().separator, "\u{203a}");
    let crumbs: Breadcrumbs<&str, u8> = Breadcrumbs::new().push_item("a", None).push_item("b", Some(2)).push_item("c", None);
    let pieces = crumbs.layout();
    assert_eq!(pieces.len(), 5);
    assert!(matches!(&pieces[1], CrumbPiece::Separator(s) if s == "\u{203a}"));
    assert!(matches!(&pieces[2], CrumbPiece::Item(i) if i.label == "b" && i.on_press == Some(2)));
}

#[test]
fn dropdown_menu_shows_separators_and_disabled_entries() {
    let d: ModernDropdown<&str, u8> = ModernDropdown::new("Pick")
        .push_item("One", 1)
        .push_separator()
        .push_disabled_item("Off")
        .selected(0)
        .open(true)
        .on_toggle(9);
    let l = d.layout();
    assert_eq!(l.trigger_text, "One");
    assert_eq!(l.trigger_press, Some(9));
    let menu = l.menu.unwrap();
    assert_eq!(menu.len(), 3);
    assert!(matches!(&menu[0], MenuEntry::Entry { label, on_press: Some(1), .. } if label == "One"));
    assert!(matches!(&menu[1], MenuEntry::Separator));
    assert!(matches!(&menu[2], MenuEntry::Entry { label, on_press: None, .. } if label == "Off"));
    let closed = ModernDropdown::<&str, u8>::new("Pick").push_item("One", 1).layout();
    assert!(closed.menu.is_none());
    assert_eq!(closed.trigger_text, "Pick");
}

#[test]
fn avatar_shows_upper_cased_initial() {
    let a = ModernAvatar::<&str>::new("maria").size(AvatarSize::LG).layout();
    assert_eq!(a.side, 56);
    assert!(matches!(&a.face, AvatarFace::Initial(t) if t == "M"));
    let e = ModernAvatar::<&str>::new("").size(AvatarSize::XS).layout();
    assert_eq!(e.side, 24);
    assert!(matches!(&e.face, AvatarFace::Initial(t) if t == "?"));
    let s = ModernAvatar::<&str>::new("\u{df}ea").layout();
    assert_eq!(s.side, 40);
    assert!(matches!(&s.face, AvatarFace::Initial(t) if t == "SS"));
    let i = ModernAvatar::new("x").icon("pic").layout();
    assert!(matches!(i.face, AvatarFace::Icon("pic")));
}

#[test]
fn modern_button_and_card_looks() {
    let b = ModernButton::<&str, u8>::new("Go").variant(ButtonVariant::Outline).on_press(1).layout();
    assert_eq!((b.look, b.label.as_str(), b.on_press), (ButtonLook::Standard, "Go", Some(1)));
    assert_eq!(ModernButton::<&str, u8>::new("Go").layout().look, ButtonLook::Suggested);
    assert_eq!(ModernButton::<&str, u8>::new("Go").variant(ButtonVariant::Ghosted).layout().look, ButtonLook::Text);
    let c = ModernCard::<&str, u8>::new("body").selected(true).layout();
    assert_eq!((c.look, c.body), (CardLook::FolderSelected, "body"));
    assert_eq!(ModernCard::<&str, u8>::new("b").layout().look, CardLook::Folder);
}

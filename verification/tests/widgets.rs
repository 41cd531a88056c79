use iced_core::{Length, Padding, Pixels};

use sory_style::layout::stack::{Alignment, Stack};
use sory_style::widget::modern::dropdown::ModernDropdown;
use sory_style::widget::modern::table::TableRow;
use sory_style::widget::sory_breadcrumb::{
    separator_text, simple_breadcrumb, BreadcrumbSegment, BreadcrumbSeparator, SoryBreadcrumb,
};
use sory_style::widget::sory_card::{CardState, SoryCard, SoryCardOverlay};
use sory_style::widget::sory_dialog::{sory_dialog, SoryDialog};
use sory_style::widget::sory_modal::ModalState;
use sory_style::widget::sory_nav::{
    nav_group, nav_item, nav_toggle_button, NavLook, NavPiece, SoryNav, SoryNavItem,
};
use sory_style::widget::sory_page::{SoryPageHeader, SoryPageStack};
use sory_style::widget::sory_popover::PopoverState;
use sory_style::widget::sory_tabs::{simple_tabs, SoryTabStyle, SoryTabs};
use sory_style::widget::sory_toast::{toast_error, toast_info, ToastId, ToastItem, ToastManager, ToastPosition, ToastVariant};

#[test]
fn toast_manager_keeps_the_newest_within_its_limit() {
    let mut m: ToastManager<u8> = ToastManager::new().max_visible(2);
    m.add(toast_info(1, "a", "x"));
    m.add(toast_info(2, "b", "y"));
    m.add(toast_error(3, "c", "z"));
    let ids: Vec<usize> = m.active_toasts().iter().map(|t| t.id.0).collect();
    assert_eq!(ids, vec![2, 3]);
    assert_eq!(m.active_toasts()[1].variant, ToastVariant::Error);
    assert_eq!(m.current_position(), ToastPosition::BottomRight);
}

#[test]
fn toast_manager_default_limit_is_five() {
    let mut m: ToastManager<u8> = ToastManager::new();
    for i in 0..7 {
        m.add(ToastItem::new(i, ToastVariant::Info, "t"));
    }
    let ids: Vec<usize> = m.active_toasts().iter().map(|t| t.id.0).collect();
    assert_eq!(ids, vec![2, 3, 4, 5, 6]);
}

#[test]
fn toast_dismiss_removes_that_id_only() {
    let mut m: ToastManager<u8> = ToastManager::new().position(ToastPosition::TopCenter);
    m.add(toast_info(1, "a", "x"));
    m.add(toast_info(2, "b", "y"));
    m.add(toast_info(1, "c", "z"));
    m.dismiss(ToastId(1));
    let ids: Vec<usize> = m.active_toasts().iter().map(|t| t.id.0).collect();
    assert_eq!(ids, vec![2]);
    m.dismiss(ToastId(9));
    assert_eq!(m.active_toasts().len(), 1);
    m.clear();
    assert!(m.active_toasts().is_empty());
    assert_eq!(m.current_position(), ToastPosition::TopCenter);
}

#[test]
fn toast_builders() {
    let t: ToastItem<u8> = ToastItem::new(4, ToastVariant::Warning, "Disk").description("Almost full").action("Open", 7).not_dismissible();
    assert_eq!(t.title, "Disk");
    assert_eq!(t.description.as_deref(), Some("Almost full"));
    assert_eq!(t.action.as_ref().map(|a| (a.label.as_str(), a.on_press)), Some(("Open", 7)));
    assert!(!t.dismissible);
    let i: ToastItem<u8> = toast_info(1, "Hi", "there");
    assert_eq!(i.variant, ToastVariant::Info);
    assert_eq!(i.description.as_deref(), Some("there"));
    assert!(i.dismissible);
}

#[test]
fn modal_and_popover_toggle_back_and_forth() {
    let m = ModalState::default();
    assert!(!m.is_open());
    assert!(m.toggle().is_open());
    assert_eq!(m.toggle().toggle(), m);
    assert!(m.open().is_open());
    assert!(!m.open().close().is_open());
    let p = PopoverState::default();
    assert!(p.toggle().is_open());
    assert_eq!(p.toggle().toggle(), p);
}

fn sample_nav(collapsed: bool) -> SoryNav<&'static str, u8> {
    let group = nav_group()
        .label("Places")
        .item(nav_item("Home").icon("home-icon").badge("new").on_press(1).active().build())
        .item(nav_item("Docs").tooltip("Documents").on_press(2).build_sub())
        .item(SoryNavItem::Separator)
        .item(nav_item("Trash").disabled().on_press(3).build())
        .separator_after()
        .build();
    let folded = nav_group().label("More").collapsible(9).collapsed(true).item(nav_item("Hidden").build()).build();
    SoryNav::new()
        .header("logo")
        .search("search")
        .footer("footer")
        .on_toggle_collapse(0)
        .collapsed(collapsed)
        .group(group)
        .group(folded)
}

#[test]
fn nav_layout_expanded() {
    let pieces = sample_nav(false).layout();
    assert_eq!(pieces.len(), 13);
    assert!(matches!(pieces[0], NavPiece::Header { content: "logo", compact: false }));
    assert!(matches!(pieces[1], NavPiece::Search("search")));
    assert!(matches!(pieces[2], NavPiece::CollapseToggle { collapsed: false, on_press: 0 }));
    assert!(matches!(&pieces[3], NavPiece::GroupLabel(l) if l == "Places"));
    match &pieces[4] {
        NavPiece::Entry(row) => {
            assert!(row.accent_bar);
            assert_eq!(row.look, NavLook::Active);
            assert_eq!(row.label, Some("Home"));
            assert_eq!(row.badge, Some("new"));
            assert_eq!(row.on_press, Some(1));
            assert!(!row.indented);
        }
        _ => panic!("entry expected"),
    }
    match &pieces[5] {
        NavPiece::Entry(row) => {
            assert!(row.sub_gap);
            assert!(row.indented);
            assert_eq!(row.tooltip, None);
            assert_eq!(row.look, NavLook::Plain);
        }
        _ => panic!("entry expected"),
    }
    assert!(matches!(pieces[6], NavPiece::Rule));
    match &pieces[7] {
        NavPiece::Entry(row) => {
            assert_eq!(row.on_press, None);
            assert!(!row.animated);
        }
        _ => panic!("entry expected"),
    }
    assert!(matches!(pieces[8], NavPiece::Rule));
    assert!(matches!(&pieces[9], NavPiece::GroupLabel(l) if l == "More"));
    assert!(matches!(pieces[10], NavPiece::GroupToggle { collapsed: true, on_press: 9 }));
    assert!(matches!(pieces[11], NavPiece::Filler));
    assert!(matches!(pieces[12], NavPiece::Footer { content: "footer", compact: false }));
}

#[test]
fn nav_layout_collapsed_is_icon_only() {
    let pieces = sample_nav(true).layout();
    assert_eq!(pieces.len(), 12);
    assert!(matches!(pieces[0], NavPiece::Header { compact: true, .. }));
    assert!(matches!(pieces[1], NavPiece::CollapseToggle { collapsed: true, .. }));
    assert!(matches!(pieces[2], NavPiece::Rule));
    for p in &pieces {
        assert!(!matches!(p, NavPiece::Search(_) | NavPiece::GroupLabel(_)));
        if let NavPiece::Entry(row) = p {
            assert_eq!(row.label, None);
            assert_eq!(row.badge, None);
            assert!(row.centered);
        }
    }
    match &pieces[4] {
        NavPiece::Entry(row) => {
            assert_eq!(row.tooltip.as_deref(), Some("Documents"));
            assert!(!row.indented);
        }
        _ => panic!("entry expected"),
    }
}

#[test]
fn nav_widths_and_toggle_button() {
    let nav: SoryNav<(), u8> = SoryNav::new();
    assert_eq!(nav.effective_width(), Length::Fixed(260.0));
    assert_eq!(nav.height, Length::Fill);
    let nav = nav.collapsed(true).collapsed_width(48);
    assert_eq!(nav.effective_width(), Length::Fixed(48.0));
    let b = nav_toggle_button(true, 5u8);
    assert_eq!(b.glyph, '☰');
    assert_eq!(b.on_press, 5);
    assert_eq!(nav_toggle_button(false, 5u8).glyph, '✕');
}

#[test]
fn page_stack_selects_a_page() {
    let s: SoryPageStack<&str, u8> = SoryPageStack::new().page("a").page("b").page("c");
    assert_eq!(s.current, 0);
    let s = s.current(1).on_back(4);
    assert_eq!(s.current, 1);
    assert_eq!(s.on_back, Some(4));
    assert_eq!(s.into_current_page(), Some("b"));
    let s: SoryPageStack<&str, u8> = SoryPageStack::new().page("a").page("b").current(7);
    assert_eq!(s.current, 1);
    assert_eq!(s.into_current_page(), Some("b"));
    let empty: SoryPageStack<&str, u8> = SoryPageStack::new().current(3);
    assert_eq!(empty.current, 0);
    assert_eq!(empty.into_current_page(), None);
}

#[test]
fn page_header_builder() {
    let h = SoryPageHeader::new("Title").subtitle("Sub").icon("i").action("a1").action("a2").breadcrumb("bc");
    assert_eq!(h.title, "Title");
    assert_eq!(h.subtitle, Some("Sub"));
    assert_eq!(h.actions, vec!["a1", "a2"]);
    assert_eq!(h.breadcrumb, Some("bc"));
}

#[test]
fn dialog_builder() {
    let d: SoryDialog<&str> = sory_dialog();
    assert!(d.animated);
    assert!(d.title.is_none() && d.controls.is_empty());
    let d = d.title("Rename").body("New name?").control("input").control("toggle").primary_action("ok")
        .secondary_action("cancel").max_width(Pixels(400.0)).animated(false);
    assert_eq!(d.title.as_deref(), Some("Rename"));
    assert_eq!(d.body.as_deref(), Some("New name?"));
    assert_eq!(d.controls, vec!["input", "toggle"]);
    assert_eq!(d.primary_action, Some("ok"));
    assert_eq!(d.tertiary_action, None);
    assert_eq!(d.max_width, Some(Pixels(400.0)));
    assert!(!d.animated);
}

#[test]
fn card_builder_and_compact_mode() {
    let c: SoryCard<&str, u8> = SoryCard::new("body");
    assert_eq!(c.state, CardState::Normal);
    assert_eq!(c.padding, Padding::from([16u16, 16u16]));
    assert_eq!(c.width, Length::Fill);
    assert_eq!(c.height, Length::Shrink);
    let c = c.compact_mode(true).state(CardState::Selected).on_press(3);
    assert!(c.compact);
    assert_eq!(c.padding, Padding::from([10u16, 12u16]));
    let c = c.padding(Padding::from(4u16)).compact_mode(false);
    assert!(!c.compact);
    assert_eq!(c.padding, Padding::from(4u16));
    let k: SoryCard<&str, u8> = SoryCard::compact("b");
    assert_eq!(k.padding, Padding::from([10u16, 12u16]));
    assert_eq!(CardState::default(), CardState::Normal);
    let o: SoryCardOverlay<&str, u8> = SoryCardOverlay::new("body", "menu");
    assert_eq!(o.overlay, "menu");
    assert_eq!(o.card().body, "body");
}

#[test]
fn breadcrumb_helpers() {
    let b: SoryBreadcrumb<(), u8> = simple_breadcrumb(&[("Home", Some(1)), ("Docs", None), ("Work", Some(3)), ("Here", Some(4))]);
    assert_eq!(b.segments.len(), 4);
    assert!(matches!(&b.segments[0], BreadcrumbSegment::Link { label, on_press: 1 } if label == "Home"));
    assert!(matches!(&b.segments[1], BreadcrumbSegment::Current(l) if l == "Docs"));
    assert!(matches!(&b.segments[2], BreadcrumbSegment::Link { on_press: 3, .. }));
    assert!(matches!(&b.segments[3], BreadcrumbSegment::Current(l) if l == "Here"));
    assert_eq!(separator_text(&BreadcrumbSeparator::Chevron), "›");
    assert_eq!(separator_text(&BreadcrumbSeparator::Arrow), "→");
    assert_eq!(separator_text(&BreadcrumbSeparator::Custom(" | ".into())), " | ");
}

#[test]
fn tabs_helpers() {
    let t: SoryTabs<(), usize> = simple_tabs(&["One", "Two", "Three"], 1, |i| i * 10);
    assert_eq!(t.tabs.len(), 3);
    assert_eq!(t.active_index, 1);
    assert_eq!(t.style, SoryTabStyle::Underline);
    assert_eq!(t.tabs[2].label, "Three");
    assert_eq!(t.tabs[2].on_press, Some(20));
}

#[test]
fn dropdown_and_table_text() {
    let d: ModernDropdown<(), u8> = ModernDropdown::new("Choose").push_item("Red", 1).push_separator().push_item("Blue", 2);
    assert_eq!(d.selected_label(), "Choose");
    let d = d.selected(2);
    assert_eq!(d.selected_label(), "Blue");
    let d = d.selected(9);
    assert_eq!(d.selected_label(), "Choose");
    let row = TableRow::new().push_cell("a").push_cell("b");
    assert_eq!(row.cell_text(1), "b");
    assert_eq!(row.cell_text(5), "");
}

#[test]
fn tab_badge_goes_on_the_next_tab() {
    let t: SoryTabs<&str, u8> = SoryTabs::new().tab("A", 1).badge("b").tab("B", 2).tab_with_icon("C", "i", 3);
    assert_eq!(t.tabs[0].badge, None);
    assert_eq!(t.tabs[1].badge, Some("b"));
    assert_eq!(t.tabs[2].badge, None);
    assert_eq!(t.tabs[2].icon, Some("i"));
    assert_eq!(t.pending_badge, None);
    let pending: SoryTabs<&str, u8> = SoryTabs::new().badge("x");
    assert!(pending.tabs.is_empty());
    assert_eq!(pending.pending_badge, Some("x"));
}

#[test]
fn stack_push_centers_the_child() {
    let s: Stack<&str> = Stack::new().push("a").push_aligned("b", Alignment::Start, Alignment::End);
    assert_eq!(s.children.len(), 2);
    assert_eq!(s.children[0].element, "a");
    assert_eq!(s.children[0].align_x, Alignment::Center);
    assert_eq!(s.children[0].align_y, Alignment::Center);
    assert_eq!(s.children[1].align_x, Alignment::Start);
    assert_eq!(s.children[1].align_y, Alignment::End);
}

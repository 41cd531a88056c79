use sory_style::widget::anim::{pointer_rest, pointer_step, spring_targets, PointerEvent, PresetKind, TargetLevel};
use sory_style::widget::modern::table::{ModernTable, TableColumn, TableRow};
use iced_core::Padding;
use sory_style::widget::sory_card::{
    card_group_rows, info_card, selectable_card, stat_card, static_card, CardLook, CardState, SoryCard, Trend,
};
use sory_style::widget::sory_dialog::{sory_dialog, DialogPiece};
use sory_style::widget::sory_list_column::{
    sory_context_list_column, sory_context_list_column_with_capacity, sory_list_column, sory_settings_section, ListLook,
};
use sory_style::widget::sory_modal::{confirm_modal, info_modal, modal_parts, simple_modal, warning_modal};
use sory_style::widget::sory_nav::{nav_counter, nav_footer, nav_footer_brand, NavFooter};
use sory_style::widget::sory_page::{
    sory_empty_state, sory_empty_state_with_action, sory_grid_rows, sory_loading_state, sory_page_content, sory_section,
    HeaderPiece, SoryPageHeader,
};
use sory_style::widget::sory_popover::{menu_popover, simple_popover, popover_menu_separator, PopoverMenuItem, PopoverState};
use sory_style::widget::sory_tabs::{SoryTabStyle, SoryTabs};
use sory_style::widget::sory_toast::{
    toast_content, toast_info, toast_view, ToastAlign, ToastId, ToastItem, ToastManager, ToastPosition, ToastVariant,
};

#[test]
fn toast_icons_follow_the_variant() {
    let icons: Vec<char> = [ToastVariant::Info, ToastVariant::Success, ToastVariant::Warning, ToastVariant::Error]
        .iter()
        .map(|v| toast_content(ToastItem::<u8>::new(0, *v, "t"), None).icon)
        .collect();
    assert_eq!(icons, vec!['\u{2139}', '\u{2713}', '\u{26a0}', '\u{2715}']);
}

#[test]
fn toast_close_button_needs_dismissible_and_message() {
    let t: ToastItem<u8> = toast_info(1, "Saved", "All good").action("Undo", 7);
    let p = toast_content(t.clone(), Some(9));
    assert_eq!(p.close, Some(9));
    assert_eq!(p.title, "Saved");
    assert_eq!(p.description.as_deref(), Some("All good"));
    let a = p.action.unwrap();
    assert_eq!((a.label.as_str(), a.on_press), ("Undo", 7));
    assert_eq!(toast_content(t.clone(), None).close, None);
    assert_eq!(toast_content(t.not_dismissible(), Some(9)).close, None);
}

#[test]
fn toast_view_stacks_in_order_with_dismiss_messages() {
    let toasts: Vec<ToastItem<usize>> = vec![
        ToastItem::new(4, ToastVariant::Info, "a"),
        ToastItem::new(5, ToastVariant::Error, "b").not_dismissible(),
    ];
    let st = toast_view(&toasts, ToastPosition::TopLeft, |id: ToastId| id.0 * 10);
    assert_eq!(st.toasts.len(), 2);
    assert_eq!(st.toasts[0].title, "a");
    assert_eq!(st.toasts[0].close, Some(40));
    assert_eq!(st.toasts[1].close, None);
    assert_eq!(st.align, ToastAlign::Start);
    assert_eq!((st.insets.top, st.insets.right, st.insets.bottom, st.insets.left), (20, 0, 0, 20));
    let st = toast_view(&toasts, ToastPosition::BottomRight, |id: ToastId| id.0);
    assert_eq!(st.align, ToastAlign::End);
    assert_eq!((st.insets.top, st.insets.right, st.insets.bottom, st.insets.left), (0, 20, 20, 0));
    let st = toast_view(&toasts, ToastPosition::BottomCenter, |id: ToastId| id.0);
    assert_eq!(st.align, ToastAlign::Center);
}

#[test]
fn toast_manager_view_drops_actions() {
    let mut m: ToastManager<u8> = ToastManager::new().position(ToastPosition::TopCenter);
    assert!(m.view(|_: ToastId| 0).is_none());
    m.add(toast_info(1, "a", "x").action("Go", 3));
    let st = m.view(|id: ToastId| id.0 as u8).unwrap();
    assert_eq!(st.toasts.len(), 1);
    assert!(st.toasts[0].action.is_none());
    assert_eq!(st.toasts[0].close, Some(1));
    assert_eq!(st.align, ToastAlign::Center);
}

#[test]
fn menu_rows_press_only_when_enabled() {
    let items: Vec<PopoverMenuItem<u8>> = vec![
        PopoverMenuItem::new("Copy").shortcut("Ctrl+C").on_press(1),
        PopoverMenuItem::new("Paste").on_press(2).disabled(),
        PopoverMenuItem::new("Label"),
        popover_menu_separator(),
    ];
    let m = menu_popover("trigger", items, PopoverState::Open, 0u8);
    assert_eq!(m.rows.len(), 4);
    assert_eq!(m.rows[0].label, "Copy");
    assert_eq!(m.rows[0].shortcut.as_deref(), Some("Ctrl+C"));
    assert_eq!(m.rows[0].on_press, Some(1));
    assert_eq!(m.rows[1].on_press, None);
    assert_eq!(m.rows[2].on_press, None);
    assert!(!m.rows[0].separator_after);
    assert!(m.rows[3].separator_after);
    assert_eq!(m.trigger, "trigger");
    assert_eq!(m.state, PopoverState::Open);
    assert_eq!(m.width, 220);
}

#[test]
fn dialog_layout_spaces_its_pieces() {
    let d = sory_dialog::<&str>().title("T").body("B").control("c1").control("c2").primary_action("ok");
    let l = d.layout();
    let kinds: Vec<&str> = l
        .content
        .iter()
        .map(|p| match p {
            DialogPiece::Title(_) => "title",
            DialogPiece::Body(_) => "body",
            DialogPiece::Control(_) => "control",
            DialogPiece::NarrowGap => "narrow",
            DialogPiece::Gap => "gap",
        })
        .collect();
    assert_eq!(kinds, vec!["title", "narrow", "body", "gap", "control", "gap", "control"]);
    assert_eq!(l.primary_action, Some("ok"));
    assert!(l.secondary_action.is_none());
    assert!(l.animated);
    let only_controls = sory_dialog::<&str>().control("a").control("b").layout();
    let kinds: Vec<bool> = only_controls.content.iter().map(|p| matches!(p, DialogPiece::Gap)).collect();
    assert_eq!(kinds, vec![false, true, false]);
}

#[test]
fn tab_layout_marks_the_active_tab() {
    let tabs: SoryTabs<&str, u8> = SoryTabs::new().style(SoryTabStyle::Pill).tab("a", 1).tab("b", 2).active(1);
    let l = tabs.layout();
    assert_eq!(l.style, SoryTabStyle::Pill);
    let active: Vec<bool> = l.cells.iter().map(|c| c.active).collect();
    assert_eq!(active, vec![false, true]);
    assert_eq!(l.cells[0].label, "a");
    assert_eq!(l.cells[1].on_press, Some(2));
}

#[test]
fn card_look_follows_its_state() {
    let looks: Vec<CardLook> = [CardState::Normal, CardState::Hovered, CardState::Selected, CardState::Disabled]
        .iter()
        .map(|s| SoryCard::<&str, u8>::new("body").state(*s).layout().look)
        .collect();
    assert_eq!(looks, vec![CardLook::Folder, CardLook::FolderHovered, CardLook::FolderSelected, CardLook::Tile]);
    let l = SoryCard::<&str, u8>::new("body").header("h").on_press(3).layout();
    assert_eq!((l.header, l.body, l.footer, l.on_press), (Some("h"), "body", None, Some(3)));
}

#[test]
fn page_header_layout_orders_its_row() {
    let h = SoryPageHeader::new("title").icon("icon").subtitle("sub").action("a1").action("a2").breadcrumb("bc");
    let l = h.layout();
    assert_eq!(l.breadcrumb, Some("bc"));
    let row: Vec<String> = l
        .title_row
        .iter()
        .map(|p| match p {
            HeaderPiece::Icon(i) => i.to_string(),
            HeaderPiece::Titles(t, s) => format!("{}/{}", t, s.unwrap_or("-")),
            HeaderPiece::Action(a) => a.to_string(),
        })
        .collect();
    assert_eq!(row, vec!["icon", "title/sub", "a1", "a2"]);
}

#[test]
fn table_layout_fills_missing_cells() {
    let empty: ModernTable<usize, fn(usize) -> usize> = ModernTable::new();
    assert!(empty.layout().is_none());
    let t = ModernTable::<usize, fn(usize) -> usize>::new()
        .column(TableColumn::new("Name"))
        .column(TableColumn::new("Size"))
        .row(TableRow::new().push_cell("a"))
        .row(TableRow::new().push_cell("b").push_cell("2").push_cell("extra"))
        .on_row_click(|i: usize| i + 100);
    let g = t.layout().unwrap();
    assert_eq!(g.headers, vec!["Name".to_string(), "Size".to_string()]);
    assert_eq!(g.rows[0].cells, vec!["a".to_string(), String::new()]);
    assert_eq!(g.rows[1].cells, vec!["b".to_string(), "2".to_string()]);
    assert_eq!(g.rows[1].on_press, Some(101));
}

#[test]
fn modal_close_message_wiring() {
    let p = modal_parts(true, true, Some(5u8));
    assert!(p.content_shown);
    assert_eq!((p.close_button, p.backdrop_press), (Some(5), Some(5)));
    let p = modal_parts::<u8>(true, true, None);
    assert!(!p.content_shown);
    assert_eq!((p.close_button, p.backdrop_press), (None, None));
    let p = modal_parts(false, false, Some(5u8));
    assert!(p.content_shown);
    assert_eq!((p.close_button, p.backdrop_press), (None, None));
}

#[test]
fn grid_rows_fill_row_by_row() {
    let rows = sory_grid_rows(3, vec![1, 2, 3, 4, 5]);
    assert_eq!(rows, vec![vec![Some(1), Some(2), Some(3)], vec![Some(4), Some(5), None]]);
    let rows = sory_grid_rows(2, vec![1, 2, 3, 4]);
    assert_eq!(rows, vec![vec![Some(1), Some(2)], vec![Some(3), Some(4)]]);
    assert!(sory_grid_rows::<u8>(4, vec![]).is_empty());
}

#[test]
fn card_group_of_nothing_is_empty_state() {
    assert!(card_group_rows::<u8>(0, vec![]).is_none());
    assert_eq!(card_group_rows(1, vec!['a', 'b']), Some(vec![vec![Some('a')], vec![Some('b')]]));
}

#[test]
fn text_popover_keeps_its_text() {
    let p = simple_popover(1u8, "Hello", PopoverState::Closed, 'x');
    assert_eq!((p.trigger, p.text.as_str(), p.state, p.on_close, p.max_width), (1, "Hello", PopoverState::Closed, 'x', 300));
}

#[test]
fn message_modals_carry_their_buttons() {
    let m = simple_modal("T", "B", 0u8);
    assert_eq!((m.title.as_str(), m.body.as_str(), m.buttons.len(), m.on_close), ("T", "B", 0, 0));
    assert!(m.show_close_button);
    assert_eq!(m.max_width, 480);
    let m = confirm_modal("Delete?", "Gone for good", "Delete", 1u8, 2u8);
    let labels: Vec<(&str, u8)> = m.buttons.iter().map(|(l, msg)| (l.as_str(), *msg)).collect();
    assert_eq!(labels, vec![("Annuler", 2), ("Delete", 1)]);
    assert_eq!(m.on_close, 2);
    let m = info_modal("Info", "Done", 3u8);
    assert_eq!(m.buttons, vec![("OK".to_string(), 3)]);
    let m = warning_modal("Careful", "Sure?", "Go", 4u8, 5u8);
    let labels: Vec<(&str, u8)> = m.buttons.iter().map(|(l, msg)| (l.as_str(), *msg)).collect();
    assert_eq!(labels, vec![("Annuler", 5), ("Go", 4)]);
}

#[test]
fn small_cards_show_their_marks() {
    let s = stat_card("42", "files", Trend::Up);
    assert_eq!((s.value.as_str(), s.label.as_str(), s.trend_mark), ("42", "files", '\u{2191}'));
    assert_eq!(s.padding, Padding::from([12u16, 16u16]));
    assert_eq!(stat_card("1", "x", Trend::Down).trend_mark, '\u{2193}');
    assert_eq!(stat_card("1", "x", Trend::Stable).trend_mark, '\u{2192}');
    let c = selectable_card("body", true, 7u8);
    assert_eq!((c.body, c.lit, c.mark, c.on_toggle), ("body", true, '\u{2713}', 7));
    assert_eq!(c.padding, Padding::from([10u16, 14u16]));
    assert_eq!(selectable_card("b", false, 0u8).mark, '\u{25cb}');
    let i = info_card("icon", "Title", "Text");
    assert_eq!((i.icon, i.title.as_str(), i.description.as_str()), ("icon", "Title", "Text"));
    let t = static_card("b");
    assert_eq!((t.body, t.look), ("b", CardLook::Tile));
}

#[test]
fn page_blocks_keep_their_parts() {
    let e = sory_empty_state("icon", "Nothing", "No files here");
    assert_eq!((e.icon, e.title.as_str(), e.description.as_str(), e.action), ("icon", "Nothing", "No files here", None));
    let e = sory_empty_state_with_action("icon", "Nothing", "No files", "Add");
    assert_eq!(e.action, Some("Add"));
    assert_eq!(sory_loading_state("Loading").message, "Loading");
    let s = sory_section("Display", 3u8);
    assert_eq!((s.title.as_str(), s.content), ("Display", 3));
    let c = sory_page_content(9u8);
    assert!(c.scrollable);
    assert_eq!(c.content, 9);
}

#[test]
fn list_columns_pad_their_items() {
    let l = sory_list_column();
    assert_eq!((l.look, l.capacity, l.divider_padding), (ListLook::Section, 4, 20));
    assert_eq!(l.item_padding, Padding::from([14u16, 20u16]));
    let c = sory_context_list_column();
    assert_eq!((c.look, c.capacity, c.divider_padding), (ListLook::ContextContent, 4, 14));
    assert_eq!(c.item_padding, Padding::from([9u16, 14u16]));
    assert_eq!(sory_context_list_column_with_capacity(9).capacity, 9);
    let s = sory_settings_section();
    assert_eq!((s.column.look, s.column.capacity), (ListLook::Section, 4));
}

#[test]
fn nav_footers_and_counters() {
    assert!(matches!(nav_footer("c"), NavFooter::Content("c")));
    match nav_footer_brand("logo", "SoryOS") {
        NavFooter::Brand { logo, name } => assert_eq!((logo, name.as_str()), ("logo", "SoryOS")),
        NavFooter::Content(_) => panic!("a brand footer"),
    }
    let c = nav_counter("12");
    assert_eq!(c.text, "12");
    assert_eq!(c.padding, Padding::from([2u16, 8u16]));
}

#[test]
fn press_then_release_over_sends_once() {
    let s = pointer_rest();
    let a = pointer_step(s, PointerEvent::Redraw, true);
    assert!(a.state.hovered && !a.state.pressed && a.restart_springs && !a.publish);
    let b = pointer_step(a.state, PointerEvent::Pressed, true);
    assert!(b.state.pressed && b.restart_springs && !b.publish);
    let b2 = pointer_step(b.state, PointerEvent::Pressed, true);
    assert!(!b2.restart_springs);
    let c = pointer_step(b.state, PointerEvent::Released, true);
    assert!(!c.state.pressed && c.publish && c.restart_springs);
    let d = pointer_step(c.state, PointerEvent::Released, true);
    assert!(!d.publish && !d.restart_springs);
    let off = pointer_step(b.state, PointerEvent::Released, false);
    assert!(!off.publish);
    let e = pointer_step(a.state, PointerEvent::CursorLeft, true);
    assert!(!e.state.hovered && e.restart_springs);
    let f = pointer_step(e.state, PointerEvent::Redraw, false);
    assert!(!f.restart_springs);
}

#[test]
fn spring_targets_follow_press_then_hover() {
    assert_eq!(spring_targets(PresetKind::Lift, true, true), (TargetLevel::Press, TargetLevel::Rest));
    assert_eq!(spring_targets(PresetKind::Lift, true, false), (TargetLevel::Hover, TargetLevel::Hover));
    assert_eq!(spring_targets(PresetKind::Spring, false, false), (TargetLevel::Rest, TargetLevel::Rest));
    assert_eq!(spring_targets(PresetKind::Spring, false, true), (TargetLevel::Press, TargetLevel::Rest));
    assert_eq!(spring_targets(PresetKind::Glow, true, false), (TargetLevel::Rest, TargetLevel::Rest));
    assert_eq!(spring_targets(PresetKind::Fade, true, true), (TargetLevel::Rest, TargetLevel::Rest));
}

use std::time::Duration;

use iced_core::Color;

use sory_style::design::color::{dark, light, SemanticColor};
use sory_style::design::motion::durations;
use sory_style::layout::grid::{grid_rows, GridSpan};
use sory_style::palette::{rgb, FileColors};
use sory_style::design::style_builder::SemanticColorResolver;

#[test]
fn grid_rows_pack_children_in_order() {
    let spans = vec![None, None, Some(GridSpan(2)), None, Some(GridSpan(5))];
    assert_eq!(grid_rows(3, &spans), vec![0, 0, 1, 1, 2]);
}

#[test]
fn grid_rows_with_zero_columns_use_one() {
    let spans = vec![None, Some(GridSpan(3)), None];
    assert_eq!(grid_rows(0, &spans), vec![0, 1, 2]);
    assert!(grid_rows(4, &Vec::new()).is_empty());
}

#[test]
fn grid_row_never_overflows() {
    let spans = vec![Some(GridSpan(2)), Some(GridSpan(2)), Some(GridSpan(1)), Some(GridSpan(0)), Some(GridSpan(3))];
    assert_eq!(grid_rows(3, &spans), vec![0, 1, 1, 2, 2]);
}

#[test]
fn rgb_reads_hex_channels() {
    assert_eq!(rgb(0x3b82f6), Color::from_rgb8(0x3b, 0x82, 0xf6));
    assert_eq!(rgb(0xff0000), Color::from_rgb8(255, 0, 0));
    assert_ne!(rgb(0xff0000), rgb(0x00ff00));
    assert_eq!(FileColors::pdf(), Color::from_rgb8(0xef, 0x44, 0x44));
    assert_eq!(FileColors::folder(), FileColors::document());
}

#[test]
fn palettes_and_semantic_colors() {
    let d = dark();
    assert_eq!(d.primary.base, Color::from_rgb8(0x2b, 0x6d, 0xe8));
    assert_eq!(SemanticColor::Primary.resolve(&d), d.primary.base);
    assert_eq!(SemanticColor::Transparent.resolve(&d), Color::TRANSPARENT);
    let c = Color::from_rgb8(1, 2, 3);
    assert_eq!(SemanticColor::Custom(c).resolve(&light()), c);
    assert_eq!(light().neutral.step_0, Color::from_rgb8(255, 255, 255));
}

#[test]
fn motion_durations() {
    let d = durations();
    assert_eq!(d.micro, Duration::from_millis(50));
    assert_eq!(d.normal, Duration::from_millis(300));
    assert_eq!(d.decorative, Duration::from_millis(1000));
}

#[test]
fn semantic_color_resolvers() {
    let d = SemanticColorResolver::dark();
    assert_eq!(d.primary, dark().primary.base);
    assert_eq!(d.text, dark().neutral.step_950);
    assert_eq!(d.border_active, dark().primary.base);
    let l = SemanticColorResolver::light();
    assert_eq!(l.background, Color::from_rgb8(255, 255, 255));
    assert_eq!(l.info, light().status.info);
}

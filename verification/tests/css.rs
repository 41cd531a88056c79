use std::cell::Cell;

use sory_style::style::css::cache::StyleCache;
use sory_style::style::css::parser::parse_stylesheet;
use sory_style::style::css::properties::PropertyValue;
use sory_style::style::css::selector::{
    find_best_match, match_selector, specificity, MatchContext, MatchResult, Selector,
};
use sory_style::style::css::stylesheet::{cascade, checked_specificity, CssFile, StyleManager};
use sory_style::style::css::tokenizer::{tokenize, Token, Tokenizer};
use sory_style::style::css::values::{named_color_rgba, parse_hex_rgba, style_slot, value_kind, StyleSlot, ValueKind};
use sory_style::style::css::stylesheet::CssError;
use iced_core::Color;

#[test]
fn test_tokenize_basic() {
    let tokens = tokenize("Button { color: red; }");
    assert!(!tokens.is_empty());
}

#[test]
fn test_parse_basic() {
    let css = r#"
            Button {
                background: #3b82f6;
                color: white;
                border-radius: 12px;
                padding: 10px 16px;
            }
        "#;
    let sheet = parse_stylesheet(css);
    assert_eq!(sheet.rules.len(), 1);
    assert_eq!(sheet.rules[0].declarations.len(), 4);
}

#[test]
fn test_parse_multiple_selectors() {
    let css = r#"
            Button.primary {
                background: #3b82f6;
            }
            Card {
                background: #18181b;
                border-radius: 16px;
            }
        "#;
    let sheet = parse_stylesheet(css);
    assert_eq!(sheet.rules.len(), 2);
}

#[test]
fn test_selector_matching() {
    let ctx = MatchContext::new("Button").class("primary");
    let type_sel = Selector::Type("Button".into());
    let class_sel = Selector::Class("primary".into());
    let and_sel = Selector::And(Box::new(type_sel.clone()), Box::new(class_sel.clone()));

    assert_eq!(match_selector(&type_sel, &ctx), MatchResult::Match);
    assert_eq!(match_selector(&class_sel, &ctx), MatchResult::Match);
    assert_eq!(match_selector(&and_sel, &ctx), MatchResult::Match);
    let wrong_sel = Selector::Type("Card".into());
    assert_eq!(match_selector(&wrong_sel, &ctx), MatchResult::NoMatch);
}

#[test]
fn test_specificity() {
    let id_sel = Selector::Id("main".into());
    let class_sel = Selector::Class("primary".into());
    let type_sel = Selector::Type("Button".into());
    assert!(specificity(&id_sel) > specificity(&class_sel));
    assert!(specificity(&class_sel) > specificity(&type_sel));
}

#[test]
fn tokens_hold_no_comment_and_no_end() {
    let tokens = tokenize("a /* note */ b");
    assert_eq!(tokens.len(), 2);
    for t in &tokens {
        assert!(!matches!(t, Token::Comment | Token::Eof));
    }
    assert!(matches!(&tokens[0], Token::Ident(s) if s == "a"));
    assert!(matches!(tokens.last(), Some(Token::Ident(s)) if s == "b"));
}

#[test]
fn tokenize_empty_input_gives_no_token() {
    assert!(tokenize("").is_empty());
}

#[test]
fn tokenizer_ends_with_eof() {
    let mut t = Tokenizer::new("");
    assert!(matches!(t.next_token(), Token::Eof));
}

#[test]
fn tokenize_numbers_keep_their_text() {
    let tokens = tokenize("12px 50% 3 -0.5");
    assert_eq!(tokens.len(), 4);
    assert!(matches!(&tokens[0], Token::Dimension(n, u) if n == "12" && u == "px"));
    assert!(matches!(&tokens[1], Token::Percentage(n) if n == "50"));
    assert!(matches!(&tokens[2], Token::Number(n) if n == "3"));
    assert!(matches!(&tokens[3], Token::Number(n) if n == "-0.5"));
}

#[test]
fn parse_reads_values_and_important() {
    let sheet = parse_stylesheet("Card { color: #fff !important; width: 16px; }");
    assert_eq!(sheet.rules.len(), 1);
    let decls = &sheet.rules[0].declarations;
    assert_eq!(decls.len(), 2);
    assert_eq!(decls[0].property, "color");
    assert!(decls[0].important);
    assert!(matches!(&decls[0].value, PropertyValue::List(v) if v.len() == 1 && matches!(&v[0], PropertyValue::Color(c) if c == "fff")));
    assert_eq!(decls[1].property, "width");
    assert!(!decls[1].important);
    assert!(matches!(&decls[1].value, PropertyValue::List(v) if v.len() == 1 && matches!(&v[0], PropertyValue::Dimension(n, u) if n == "16" && u == "px")));
}

#[test]
fn parse_skips_at_rules_and_the_token_after() {
    let sheet = parse_stylesheet("@media screen { Button { color: red; } } ; Card { color: blue; }");
    assert_eq!(sheet.rules.len(), 1);
    assert!(matches!(&sheet.rules[0].selectors[0], Selector::Type(t) if t == "Card"));
    let sheet = parse_stylesheet("@import x; Card { color: blue; }");
    assert_eq!(sheet.rules.len(), 0);
}

#[test]
fn parse_selector_list_and_compound() {
    let sheet = parse_stylesheet("Button.primary, #main { color: red; }");
    let sels = &sheet.rules[0].selectors;
    assert_eq!(sels.len(), 2);
    assert!(matches!(&sels[0], Selector::And(_, _)));
    assert!(matches!(&sels[1], Selector::Id(i) if i == "main"));
    assert_eq!(specificity(&sels[0]), 11);
    assert_eq!(specificity(&sels[1]), 100);
}

#[test]
fn type_selectors_ignore_ascii_case() {
    let ctx = MatchContext::new("Button");
    assert_eq!(match_selector(&Selector::Type("button".into()), &ctx), MatchResult::Match);
    assert_eq!(match_selector(&Selector::Type("BUTTON".into()), &ctx), MatchResult::Match);
    assert_eq!(match_selector(&Selector::Type("Buttons".into()), &ctx), MatchResult::NoMatch);
}

#[test]
fn and_selector_needs_both_parts() {
    let ctx = MatchContext::new("Button").class("primary");
    let and_sel = Selector::And(
        Box::new(Selector::Type("Button".into())),
        Box::new(Selector::Class("large".into())),
    );
    assert_eq!(match_selector(&and_sel, &ctx), MatchResult::NoMatch);
    assert_eq!(specificity(&and_sel), 11);
}

#[test]
fn combinators_judged_by_their_right_part() {
    let ctx = MatchContext::new("Button").hover();
    let desc = Selector::Descendant(
        Box::new(Selector::Type("Card".into())),
        Box::new(Selector::PseudoClass("hover".into())),
    );
    let child = Selector::Child(
        Box::new(Selector::Type("Card".into())),
        Box::new(Selector::PseudoClass("focus".into())),
    );
    assert_eq!(match_selector(&desc, &ctx), MatchResult::Match);
    assert_eq!(match_selector(&child, &ctx), MatchResult::NoMatch);
    assert_eq!(specificity(&desc), 11);
}

#[test]
fn id_and_universal_selectors() {
    let ctx = MatchContext::new("Card").id("main");
    assert_eq!(match_selector(&Selector::Id("main".into()), &ctx), MatchResult::Match);
    assert_eq!(match_selector(&Selector::Id("side".into()), &ctx), MatchResult::NoMatch);
    assert_eq!(match_selector(&Selector::Universal, &ctx), MatchResult::Match);
    assert_eq!(specificity(&Selector::Universal), 0);
    assert_eq!(checked_specificity(&Selector::Id("main".into())), Some(100));
}

#[test]
fn best_match_is_first_of_highest_specificity() {
    let ctx = MatchContext::new("Button").class("primary").class("large");
    let sels = vec![
        Selector::Type("Button".into()),
        Selector::Class("primary".into()),
        Selector::Class("large".into()),
        Selector::Id("other".into()),
    ];
    let best = find_best_match(&sels, &ctx);
    assert!(matches!(best, Some((1, Selector::Class(c))) if c == "primary"));
}

#[test]
fn best_match_counts_the_universal_selector() {
    let ctx = MatchContext::new("Button");
    let sels = vec![Selector::Type("Card".into()), Selector::Universal];
    assert!(matches!(find_best_match(&sels, &ctx), Some((1, Selector::Universal))));
    let none = vec![Selector::Type("Card".into()), Selector::Id("x".into())];
    assert!(find_best_match(&none, &ctx).is_none());
    assert!(find_best_match(&[], &ctx).is_none());
}

#[test]
fn cascade_keeps_the_winner_of_each_property() {
    let candidates = vec![
        ("color".to_string(), 1, 1, false),
        ("color".to_string(), 2, 10, false),
        ("background".to_string(), 3, 1, false),
        ("color".to_string(), 4, 10, false),
    ];
    let r = cascade(candidates);
    assert_eq!(r, vec![("color".to_string(), 2), ("background".to_string(), 3)]);
}

#[test]
fn cascade_important_wins_among_equal_specificity() {
    let candidates = vec![
        ("color".to_string(), 'a', 10, false),
        ("color".to_string(), 'b', 10, true),
        ("color".to_string(), 'c', 100, false),
        ("width".to_string(), 'd', 1, false),
        ("width".to_string(), 'e', 1, true),
    ];
    let r = cascade(candidates);
    assert_eq!(r, vec![("color".to_string(), 'c'), ("width".to_string(), 'e')]);
}

#[test]
fn cascade_of_nothing_is_empty() {
    let r: Vec<(String, u8)> = cascade(Vec::new());
    assert!(r.is_empty());
}

#[test]
fn style_manager_load_match_remove() {
    let mut m = StyleManager::new();
    m.load_string("test", "\n            Button { background: #ff0000; color: white; }\n        ");
    let ctx = MatchContext::new("Button");
    assert!(m.specificities_fit());
    let found = m.matched_declarations(&ctx);
    assert_eq!(found.len(), 2);
    assert_eq!(found[0].property, "background");
    assert!(matches!(found[0].value, PropertyValue::List(v) if matches!(&v[..], [PropertyValue::Color(c)] if c == "ff0000")));
    assert_eq!(found[0].specificity, 1);
    assert_eq!(found[1].property, "color");
    assert!(matches!(found[1].value, PropertyValue::List(v) if matches!(&v[..], [PropertyValue::Keyword(k)] if k == "white")));
    assert!(m.matched_declarations(&MatchContext::new("Card")).is_empty());
    m.remove("test");
    assert!(m.matched_declarations(&ctx).is_empty());
}

#[test]
fn style_manager_reload_replaces_sheet_of_same_name() {
    let mut m = StyleManager::new();
    m.load_string("theme", "Button { color: red; }");
    m.load_string("other", "Button.primary { color: blue; }");
    m.load_string("theme", "Button { width: 10px; }");
    let ctx = MatchContext::new("Button").class("primary");
    let found = m.matched_declarations(&ctx);
    assert_eq!(found.len(), 2);
    assert_eq!(found[0].property, "width");
    assert_eq!(found[1].property, "color");
    assert_eq!(found[1].specificity, 11);
}

#[test]
fn rule_specificity_is_that_of_its_best_selector() {
    let mut m = StyleManager::new();
    m.load_string("s", "Button, #main { color: red; } * { width: 1px; }");
    let found = m.matched_declarations(&MatchContext::new("Button"));
    assert_eq!(found.len(), 2);
    assert_eq!(found[0].property, "color");
    assert_eq!(found[0].specificity, 100);
    assert_eq!(found[1].property, "width");
    assert_eq!(found[1].specificity, 0);
}

#[test]
fn css_file_staleness_and_refresh() {
    let mut f = CssFile::from_source("a.css", "Button { color: red; }", 5);
    assert_eq!(f.stylesheet.rules.len(), 1);
    assert!(!f.is_stale(5));
    assert!(f.is_stale(6));
    f.refresh("A { x: 1; } B { y: 2; }", 9);
    assert_eq!(f.last_modified, 9);
    assert_eq!(f.stylesheet.rules.len(), 2);
    assert!(!f.is_stale(9));
    assert_eq!(f.path, "a.css");
}

#[test]
fn cache_computes_once_until_invalidated() {
    let calls = Cell::new(0u32);
    let compute = |c: &MatchContext| {
        calls.set(calls.get() + 1);
        c.classes.len()
    };
    let mut cache = StyleCache::new(&compute);
    let ctx = MatchContext::new("Button").class("b").class("a");
    assert_eq!(cache.get_or_compute(&ctx), 2);
    assert_eq!(cache.get_or_compute(&ctx), 2);
    assert_eq!(calls.get(), 1);
    cache.invalidate();
    assert_eq!(cache.get_or_compute(&ctx), 2);
    assert_eq!(calls.get(), 2);
    cache.clear();
    assert_eq!(cache.get_or_compute(&ctx), 2);
    assert_eq!(calls.get(), 3);
}

#[test]
fn cache_key_ignores_class_order_and_type_case() {
    let calls = Cell::new(0u32);
    let compute = |_: &MatchContext| {
        calls.set(calls.get() + 1);
        calls.get()
    };
    let mut cache = StyleCache::new(&compute);
    let a = MatchContext::new("Button").class("b").class("a");
    let b = MatchContext::new("button").class("a").class("b");
    let c = MatchContext::new("Button").class("a").class("b").hover();
    assert_eq!(cache.get_or_compute(&a), 1);
    assert_eq!(cache.get_or_compute(&b), 1);
    assert_eq!(cache.get_or_compute(&c), 2);
    assert_eq!(calls.get(), 2);
}

#[test]
fn cache_tells_ids_apart() {
    let compute = |c: &MatchContext| c.id.clone();
    let mut cache = StyleCache::new(&compute);
    let with_id = MatchContext::new("Button").id("save");
    let without = MatchContext::new("Button");
    let other_id = MatchContext::new("Button").id("load");
    assert_eq!(cache.get_or_compute(&with_id), Some("save".to_string()));
    assert_eq!(cache.get_or_compute(&without), None);
    assert_eq!(cache.get_or_compute(&other_id), Some("load".to_string()));
    assert_eq!(cache.get_or_compute(&with_id), Some("save".to_string()));
}

#[test]
fn cache_folds_ascii_case_only() {
    let compute = |c: &MatchContext| c.widget_type.clone();
    let mut cache = StyleCache::new(&compute);
    assert_eq!(cache.get_or_compute(&MatchContext::new("\u{c9}tiquette")), "\u{c9}tiquette");
    assert_eq!(cache.get_or_compute(&MatchContext::new("\u{e9}tiquette")), "\u{e9}tiquette");
    assert_eq!(cache.get_or_compute(&MatchContext::new("\u{212a}ey")), "\u{212a}ey");
    assert_eq!(cache.get_or_compute(&MatchContext::new("key")), "key");
    assert_eq!(cache.get_or_compute(&MatchContext::new("KEY")), "key");
}

#[test]
fn cache_serves_what_a_fresh_computation_gives() {
    let sheet = "Button { color: red; } #save { width: 2px; } .wide:hover { width: 9px; }";
    let mut manager = StyleManager::new();
    manager.load_string("theme", sheet);
    let compute = |c: &MatchContext| {
        let found = manager.matched_declarations(c);
        found.iter().map(|d| d.property.clone()).collect::<Vec<String>>()
    };
    let mut cache = StyleCache::new(&compute);
    let contexts = [
        MatchContext::new("Button").id("save"),
        MatchContext::new("Button"),
        MatchContext::new("BUTTON").class("wide").hover(),
        MatchContext::new("button").class("wide"),
        MatchContext::new("Button").id("save"),
        MatchContext::new("button").hover().class("wide"),
    ];
    for ctx in contexts.iter() {
        assert_eq!(cache.get_or_compute(ctx), compute(ctx));
    }
}

#[test]
fn hex_colors_read_their_channels() {
    assert_eq!(parse_hex_rgba("#ff0000"), Some((255, 0, 0, 255)));
    assert_eq!(parse_hex_rgba("#fff"), Some((255, 255, 255, 255)));
    assert_eq!(parse_hex_rgba("3b82f680"), Some((0x3b, 0x82, 0xf6, 0x80)));
    assert_eq!(parse_hex_rgba("##A0b"), Some((0xaa, 0x00, 0xbb, 255)));
    assert_eq!(parse_hex_rgba("+f+f+f"), Some((15, 15, 15, 255)));
    assert_eq!(parse_hex_rgba("#ggg"), None);
    assert_eq!(parse_hex_rgba("#12345"), None);
    assert_eq!(parse_hex_rgba(""), None);
}

#[test]
fn named_colors_ignore_case() {
    assert_eq!(named_color_rgba("WHITE"), Some((255, 255, 255, 255)));
    assert_eq!(named_color_rgba("transparent"), Some((0, 0, 0, 0)));
    assert_eq!(named_color_rgba("Green"), Some((0, 128, 0, 255)));
    assert_eq!(named_color_rgba("purple"), None);
}

#[test]
fn properties_are_read_by_kind_and_slot() {
    assert_eq!(value_kind("background-color"), ValueKind::Color);
    assert_eq!(value_kind("opacity"), ValueKind::Opacity);
    assert_eq!(value_kind("font-weight"), ValueKind::FontWeight);
    assert_eq!(value_kind("icon-size"), ValueKind::Length);
    assert_eq!(value_kind("box-shadow"), ValueKind::Shadow);
    assert_eq!(value_kind("border-width"), ValueKind::Generic);
    assert_eq!(style_slot("spacing"), Some(StyleSlot::Gap));
    assert_eq!(style_slot("border"), Some(StyleSlot::BorderWidth));
    assert_eq!(style_slot("color"), Some(StyleSlot::TextColor));
    assert_eq!(style_slot("cursor"), None);
}

#[test]
fn selectors_print_as_css() {
    let and_sel = Selector::And(Box::new(Selector::Type("Button".into())), Box::new(Selector::Class("primary".into())));
    assert_eq!(and_sel.to_css(), "Button.primary");
    let child = Selector::Child(Box::new(Selector::Id("main".into())), Box::new(Selector::PseudoClass("hover".into())));
    assert_eq!(child.to_css(), "#main > :hover");
    let desc = Selector::Descendant(Box::new(Selector::Universal), Box::new(Selector::Type("Card".into())));
    assert_eq!(desc.to_css(), "* Card");
    let sheet = parse_stylesheet("Button.primary:hover, #main { color: red; }");
    assert_eq!(sheet.rules[0].selectors[0].to_css(), "Button.primary:hover");
}

#[test]
fn css_errors_have_messages() {
    assert_eq!(CssError::Parse("bad".into()).message(), "Parse error: bad");
    assert_eq!(CssError::NotFound("a.css".into()).message(), "File not found: a.css");
    let e: CssError = std::io::Error::new(std::io::ErrorKind::Other, "boom").into();
    assert_eq!(e.message(), "IO error: boom");
}

#[test]
fn style_manager_reloads_only_newer_files() {
    let mut m = StyleManager::default();
    m.insert_file("theme", CssFile::from_source("theme.css", "Button { color: red; }", 10));
    m.load_string("inline", "Card { color: blue; }");
    let paths = m.paths();
    assert_eq!(paths, vec![("theme".to_string(), "theme.css".to_string()), ("inline".to_string(), String::new())]);
    assert!(!m.is_stale("theme", 10));
    assert!(m.is_stale("theme", 11));
    assert!(!m.is_stale("inline", 0));
    assert!(!m.is_stale("missing", 99));
    assert!(!m.reload_file("theme", 9, "Button { width: 1px; }"));
    assert_eq!(m.matched_declarations(&MatchContext::new("Button"))[0].property, "color");
    assert!(m.reload_file("theme", 12, "Button { width: 1px; }"));
    assert_eq!(m.matched_declarations(&MatchContext::new("Button"))[0].property, "width");
    assert!(!m.is_stale("theme", 12));
    assert!(!m.reload_file("missing", 50, "A { b: c; }"));
}

#[test]
fn cache_generation_counts_invalidations() {
    let compute = |_: &MatchContext| 0u8;
    let mut cache = StyleCache::new(&compute);
    assert_eq!(cache.current_generation(), 0);
    cache.invalidate();
    cache.invalidate();
    assert_eq!(cache.current_generation(), 2);
}

#[test]
fn tokenizer_edge_cases() {
    let t = tokenize("@media");
    assert!(matches!(&t[..], [Token::AtKeyword(k)] if k == "media"));
    let t = tokenize("'a\\'b'");
    assert!(matches!(&t[..], [Token::String(s)] if s == "a'b"));
    let t = tokenize("# x");
    assert!(matches!(&t[..], [Token::Delim('#'), Token::Ident(x)] if x == "x"));
    let t = tokenize(".5em");
    assert!(matches!(&t[..], [Token::Dot, Token::Dimension(n, u)] if n == "5" && u == "em"));
    let t = tokenize("-x");
    assert!(matches!(&t[..], [Token::Dimension(n, u)] if n == "-" && u == "x"));
    assert!(tokenize("/* unterminated").is_empty());
    let t = tokenize("a/b");
    assert!(matches!(&t[..], [Token::Ident(a), Token::Delim('/'), Token::Ident(b)] if a == "a" && b == "b"));
    let t = tokenize("#abc{}");
    assert!(matches!(&t[..], [Token::Hash(h), Token::LeftBrace, Token::RightBrace] if h == "abc"));
}

#[test]
fn parser_recovers_from_bad_input() {
    let sheet = parse_stylesheet("Button { color: red; width }");
    assert_eq!(sheet.rules.len(), 1);
    assert_eq!(sheet.rules[0].declarations.len(), 1);
    let sheet = parse_stylesheet("{ color: red; } Card { color: blue; }");
    assert_eq!(sheet.rules.len(), 1);
    assert!(matches!(&sheet.rules[0].selectors[0], Selector::Type(t) if t == "Card"));
    assert!(parse_stylesheet("").rules.is_empty());
}

#[test]
fn test_color_parsing() {
    if let Some((r, g, b, a)) = parse_hex_rgba("#ff0000") {
        let c = Color::from_rgba8(r, g, b, a as f32 / 255.0);
        assert!((c.r - 1.0).abs() < 0.01);
        assert!(c.g.abs() < 0.01);
    } else {
        panic!("Expected Color");
    }
    assert!(parse_hex_rgba("#fff").is_some());
}

#[test]
fn end_marker_is_absorbing() {
    let mut t = Tokenizer::new("  a \u{00A0}\u{3000} ");
    assert!(matches!(t.next_token(), Token::Ident(s) if s == "a"));
    assert!(matches!(t.next_token(), Token::Eof));
    assert!(matches!(t.next_token(), Token::Eof));
    assert!(matches!(t.next_token(), Token::Eof));
}

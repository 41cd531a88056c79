//! Style sheets held by name, and the cascade that picks, for a widget,
//! one value per property.
//!
//! Reading files from disk and turning values into colors and lengths are
//! done by the caller; this module decides which declarations apply and
//! which of them win.
use vstd::prelude::*;
use super::parser::{Declaration, ParsedStylesheet, Rule, SpecDecl, SpecRule, parse_stylesheet, parse_stylesheet_spec};
use super::properties::{PropertyValue, SpecValue};
use crate::text::{chars_of, string_of};
use vstd::string::to_string_from_display_ensures;
use super::selector::{
    MatchContext, Selector, SpecContext, SpecSelector, find_best_match, selector_matches, specificity,
    specificity_spec, lemma_specificity_nonneg,
};

verus! {

#[verifier::external_type_specification]
#[verifier::external_body]
pub struct ExIoError(std::io::Error);

/// Error while loading a style sheet.
#[derive(Debug)]
pub enum CssError {
    Io(std::io::Error),
    Parse(String),
    NotFound(String),
}

impl From<std::io::Error> for CssError {
    fn from(e: std::io::Error) -> (r: Self) {
        CssError::Io(e)
    }
}

impl vstd::std_specs::convert::FromSpecImpl<std::io::Error> for CssError {
    open spec fn obeys_from_spec() -> bool {
        true
    }

    open spec fn from_spec(v: std::io::Error) -> Self {
        CssError::Io(v)
    }
}

/// `s` followed by `t`.
fn concat(s: &str, t: &str) -> (r: String)
    ensures
        r@ == s@ + t@,
{
    let mut cs = chars_of(s);
    let mut more = chars_of(t);
    cs.append(&mut more);
    string_of(&cs)
}

impl CssError {
    /// The error's message: `IO error: ` and the system's message, `Parse
    /// error: ` or `File not found: ` followed by the detail.
    pub fn message(&self) -> (r: String)
        ensures
            self matches CssError::Io(e) ==> exists|t: String| to_string_from_display_ensures(e, t)
                && r@ == "IO error: "@ + t@,
            self matches CssError::Parse(d) ==> r@ == "Parse error: "@ + d@,
            self matches CssError::NotFound(d) ==> r@ == "File not found: "@ + d@,
    {
        match self {
            CssError::Io(e) => {
                let t = e.to_string();
                concat("IO error: ", t.as_str())
            },
            CssError::Parse(d) => concat("Parse error: ", d.as_str()),
            CssError::NotFound(d) => concat("File not found: ", d.as_str()),
        }
    }
}

/// A loaded style sheet, with what is needed to reload it when its file
/// changes. `last_modified` counts nanoseconds since the Unix epoch.
#[derive(Debug)]
pub struct CssFile {
    pub path: String,
    pub source: String,
    pub stylesheet: ParsedStylesheet,
    pub last_modified: u128,
}

impl CssFile {
    /// A style sheet read from `path`, whose text is `source`.
    pub fn from_source(path: &str, source: &str, last_modified: u128) -> (r: Self)
        ensures
            r.path@ == path@,
            r.source@ == source@,
            r.stylesheet@ == parse_stylesheet_spec(source@),
            r.last_modified == last_modified,
    {
        CssFile {
            path: String::from_str(path),
            source: String::from_str(source),
            stylesheet: parse_stylesheet(source),
            last_modified,
        }
    }

    /// This sheet, stored under `name`.
    pub open spec fn sheet_named(self, name: Seq<char>) -> SpecSheet {
        SpecSheet { name, path: self.path@, modified: self.last_modified, rules: self.stylesheet@ }
    }

    /// Whether a file last modified at `modified` is newer than this sheet.
    pub fn is_stale(&self, modified: u128) -> (r: bool)
        ensures
            r == (modified > self.last_modified),
    {
        modified > self.last_modified
    }

    /// Replaces the sheet with a newer text of its file.
    pub fn refresh(&mut self, source: &str, modified: u128)
        ensures
            final(self).path == old(self).path,
            final(self).source@ == source@,
            final(self).stylesheet@ == parse_stylesheet_spec(source@),
            final(self).last_modified == modified,
    {
        self.source = String::from_str(source);
        self.stylesheet = parse_stylesheet(source);
        self.last_modified = modified;
    }
}

// ── Which declarations apply ────────────────────────────────────────────

/// The highest specificity among a rule's selectors (0 for none).
pub open spec fn max_specificity(sels: Seq<SpecSelector>) -> int
    decreases sels.len(),
{
    if sels.len() == 0 {
        0
    } else {
        let m = max_specificity(sels.drop_last());
        let s = specificity_spec(sels.last());
        if s > m {
            s
        } else {
            m
        }
    }
}

/// A rule applies when one of its selectors matches.
pub open spec fn rule_applies(rule: SpecRule, ctx: SpecContext) -> bool {
    exists|i: int| 0 <= i < rule.selectors.len() && selector_matches(#[trigger] rule.selectors[i], ctx)
}

/// A declaration that applies to a widget: its property, value, the
/// specificity of its rule and whether it is `!important`.
pub struct SpecEntry {
    pub property: Seq<char>,
    pub value: SpecValue,
    pub specificity: int,
    pub important: bool,
}

pub open spec fn decl_entries(decls: Seq<SpecDecl>, spec: int) -> Seq<SpecEntry> {
    decls.map_values(|d: SpecDecl| SpecEntry {
        property: d.property,
        value: d.value,
        specificity: spec,
        important: d.important,
    })
}

pub open spec fn rule_entries(rule: SpecRule, ctx: SpecContext) -> Seq<SpecEntry> {
    if rule_applies(rule, ctx) {
        decl_entries(rule.declarations, max_specificity(rule.selectors))
    } else {
        Seq::empty()
    }
}

pub open spec fn sheet_entries(rules: Seq<SpecRule>, ctx: SpecContext) -> Seq<SpecEntry>
    decreases rules.len(),
{
    if rules.len() == 0 {
        Seq::empty()
    } else {
        sheet_entries(rules.drop_last(), ctx) + rule_entries(rules.last(), ctx)
    }
}

pub open spec fn files_entries(sheets: Seq<Seq<SpecRule>>, ctx: SpecContext) -> Seq<SpecEntry>
    decreases sheets.len(),
{
    if sheets.len() == 0 {
        Seq::empty()
    } else {
        files_entries(sheets.drop_last(), ctx) + sheet_entries(sheets.last(), ctx)
    }
}

/// A rule that applies gives one entry per declaration, in order, each
/// with the declaration's property, value and `!important` flag and the
/// rule's highest specificity; a rule that does not apply gives none.
pub proof fn lemma_rule_entries_keep_declarations(rule: SpecRule, ctx: SpecContext)
    ensures
        !rule_applies(rule, ctx) ==> rule_entries(rule, ctx).len() == 0,
        rule_applies(rule, ctx) ==> rule_entries(rule, ctx).len() == rule.declarations.len(),
        rule_applies(rule, ctx) ==> forall|k: int| 0 <= k < rule.declarations.len() ==> {
            &&& (#[trigger] rule_entries(rule, ctx)[k]).property == rule.declarations[k].property
            &&& rule_entries(rule, ctx)[k].value == rule.declarations[k].value
            &&& rule_entries(rule, ctx)[k].important == rule.declarations[k].important
            &&& rule_entries(rule, ctx)[k].specificity == max_specificity(rule.selectors)
        },
{
}

proof fn lemma_sheet_entries_contain(rules: Seq<SpecRule>, ctx: SpecContext, ri: int, k: int)
    requires
        0 <= ri < rules.len(),
        rule_applies(rules[ri], ctx),
        0 <= k < rules[ri].declarations.len(),
    ensures
        sheet_entries(rules, ctx).contains(SpecEntry {
            property: rules[ri].declarations[k].property,
            value: rules[ri].declarations[k].value,
            specificity: max_specificity(rules[ri].selectors),
            important: rules[ri].declarations[k].important,
        }),
    decreases rules.len(),
{
    let e = SpecEntry {
        property: rules[ri].declarations[k].property,
        value: rules[ri].declarations[k].value,
        specificity: max_specificity(rules[ri].selectors),
        important: rules[ri].declarations[k].important,
    };
    let prefix = sheet_entries(rules.drop_last(), ctx);
    let last = rule_entries(rules.last(), ctx);
    assert(sheet_entries(rules, ctx) == prefix + last);
    if ri == rules.len() - 1 {
        lemma_rule_entries_keep_declarations(rules.last(), ctx);
        assert(last[k] == e);
        assert((prefix + last)[prefix.len() + k] == e);
    } else {
        lemma_sheet_entries_contain(rules.drop_last(), ctx, ri, k);
        assert(rules.drop_last()[ri] == rules[ri]);
        let j = choose|j: int| 0 <= j < prefix.len() && prefix[j] == e;
        assert((prefix + last)[j] == e);
    }
}

/// Every declaration of an applying rule of any loaded sheet reaches the
/// matched declarations with its property, value and `!important` flag
/// unchanged, at its rule's highest specificity: a declaration parsed with
/// `!important` is reported as important.
pub proof fn lemma_matched_keep_important(sheets: Seq<Seq<SpecRule>>, ctx: SpecContext, si: int, ri: int, k: int)
    requires
        0 <= si < sheets.len(),
        0 <= ri < sheets[si].len(),
        rule_applies(sheets[si][ri], ctx),
        0 <= k < sheets[si][ri].declarations.len(),
    ensures
        files_entries(sheets, ctx).contains(SpecEntry {
            property: sheets[si][ri].declarations[k].property,
            value: sheets[si][ri].declarations[k].value,
            specificity: max_specificity(sheets[si][ri].selectors),
            important: sheets[si][ri].declarations[k].important,
        }),
    decreases sheets.len(),
{
    let e = SpecEntry {
        property: sheets[si][ri].declarations[k].property,
        value: sheets[si][ri].declarations[k].value,
        specificity: max_specificity(sheets[si][ri].selectors),
        important: sheets[si][ri].declarations[k].important,
    };
    let prefix = files_entries(sheets.drop_last(), ctx);
    let last = sheet_entries(sheets.last(), ctx);
    assert(files_entries(sheets, ctx) == prefix + last);
    if si == sheets.len() - 1 {
        lemma_sheet_entries_contain(sheets.last(), ctx, ri, k);
        let j = choose|j: int| 0 <= j < last.len() && last[j] == e;
        assert((prefix + last)[prefix.len() + j] == e);
    } else {
        lemma_matched_keep_important(sheets.drop_last(), ctx, si, ri, k);
        assert(sheets.drop_last()[si] == sheets[si]);
        let j = choose|j: int| 0 <= j < prefix.len() && prefix[j] == e;
        assert((prefix + last)[j] == e);
    }
}

/// Every selector of every rule has a specificity that fits in a `u32`.
pub open spec fn rules_fit(rules: Seq<SpecRule>) -> bool {
    forall|i: int, j: int| 0 <= i < rules.len() && 0 <= j < rules[i].selectors.len()
        ==> specificity_spec(#[trigger] rules[i].selectors[j]) <= u32::MAX
}

/// A declaration that applies to a widget, as returned to the caller.
pub struct MatchedDeclaration<'a> {
    pub property: String,
    pub value: &'a PropertyValue,
    pub specificity: u32,
    pub important: bool,
}

pub open spec fn matched_view(m: MatchedDeclaration) -> SpecEntry {
    SpecEntry {
        property: m.property@,
        value: m.value@,
        specificity: m.specificity as int,
        important: m.important,
    }
}

pub open spec fn matched_views(v: Seq<MatchedDeclaration>) -> Seq<SpecEntry> {
    v.map_values(|m: MatchedDeclaration| matched_view(m))
}

/// The specificity of a selector, or `None` when it does not fit in a `u32`.
pub fn checked_specificity(selector: &Selector) -> (r: Option<u32>)
    ensures
        r matches Some(v) ==> v == specificity_spec(selector@),
        r is None ==> specificity_spec(selector@) > u32::MAX,
    decreases selector,
{
    proof {
        lemma_specificity_nonneg(selector@);
    }
    match selector {
        Selector::Id(_) => Some(100),
        Selector::Class(_) | Selector::PseudoClass(_) => Some(10),
        Selector::Type(_) => Some(1),
        Selector::Universal => Some(0),
        Selector::And(a, b) | Selector::Descendant(a, b) | Selector::Child(a, b) => {
            proof {
                lemma_specificity_nonneg(a@);
                lemma_specificity_nonneg(b@);
            }
            match (checked_specificity(a), checked_specificity(b)) {
                (Some(x), Some(y)) => x.checked_add(y),
                _ => None,
            }
        },
    }
}

fn rule_max_specificity(rule: &Rule) -> (r: u32)
    requires
        forall|j: int| 0 <= j < rule@.selectors.len() ==> specificity_spec(#[trigger] rule@.selectors[j]) <= u32::MAX,
    ensures
        r == max_specificity(rule@.selectors),
{
    let mut m: u32 = 0;
    let mut i: usize = 0;
    let ghost sels = rule@.selectors;
    while i < rule.selectors.len()
        invariant
            i <= rule.selectors.len(),
            sels == rule@.selectors,
            sels.len() == rule.selectors@.len(),
            forall|j: int| 0 <= j < sels.len() ==> specificity_spec(#[trigger] sels[j]) <= u32::MAX,
            m == max_specificity(sels.take(i as int)),
        decreases rule.selectors.len() - i,
    {
        proof {
            assert(sels.take(i + 1).drop_last() =~= sels.take(i as int));
            assert(sels[i as int] == rule.selectors@[i as int]@);
        }
        let s = specificity(&rule.selectors[i]);
        if s > m {
            m = s;
        }
        i = i + 1;
    }
    proof {
        assert(sels.take(i as int) =~= sels);
    }
    m
}

fn push_rule_entries<'a>(rule: &'a Rule, context: &MatchContext, out: &mut Vec<MatchedDeclaration<'a>>)
    requires
        forall|j: int| 0 <= j < rule@.selectors.len() ==> specificity_spec(#[trigger] rule@.selectors[j]) <= u32::MAX,
    ensures
        matched_views(final(out)@) =~= matched_views(old(out)@) + rule_entries(rule@, context@),
{
    let ghost sels = rule.selectors@;
    proof {
        assert forall|j: int| 0 <= j < sels.len() implies specificity_spec(#[trigger] sels[j]@) <= u32::MAX by {
            assert(rule@.selectors[j] == sels[j]@);
        }
    }
    let best = find_best_match(rule.selectors.as_slice(), context);
    match best {
        None => {
            proof {
                if rule_applies(rule@, context@) {
                    let i = choose|i: int| 0 <= i < rule@.selectors.len() && selector_matches(#[trigger] rule@.selectors[i], context@);
                    assert(rule@.selectors[i] == sels[i]@);
                }
                assert(matched_views(out@) =~= matched_views(out@) + Seq::<SpecEntry>::empty());
            }
        },
        Some((k, _)) => {
            proof {
                assert(rule@.selectors[k as int] == sels[k as int]@);
                assert(rule_applies(rule@, context@));
            }
            let spec = rule_max_specificity(rule);
            let ghost start = matched_views(out@);
            let ghost decls = rule@.declarations;
            let mut i: usize = 0;
            while i < rule.declarations.len()
                invariant
                    i <= rule.declarations.len(),
                    decls == rule@.declarations,
                    decls.len() == rule.declarations@.len(),
                    spec == max_specificity(rule@.selectors),
                    matched_views(out@) =~= start + decl_entries(decls.take(i as int), spec as int),
                decreases rule.declarations.len() - i,
            {
                let d: &'a Declaration = &rule.declarations[i];
                let ghost before = out@;
                out.push(MatchedDeclaration {
                    property: d.property.clone(),
                    value: &d.value,
                    specificity: spec,
                    important: d.important,
                });
                proof {
                    assert(decls[i as int] == rule.declarations@[i as int]@);
                    assert(out@ =~= before.push(out@[out@.len() - 1]));
                    assert(decls.take(i + 1) =~= decls.take(i as int).push(decls[i as int]));
                    assert(decl_entries(decls.take(i + 1), spec as int) =~= decl_entries(decls.take(i as int), spec as int).push(matched_view(out@[out@.len() - 1])));
                    assert(matched_views(out@) =~= matched_views(before).push(matched_view(out@[out@.len() - 1])));
                }
                i = i + 1;
            }
            proof {
                assert(decls.take(i as int) =~= decls);
            }
        },
    }
}

fn push_sheet_entries<'a>(sheet: &'a ParsedStylesheet, context: &MatchContext, out: &mut Vec<MatchedDeclaration<'a>>)
    requires
        rules_fit(sheet@),
    ensures
        matched_views(final(out)@) =~= matched_views(old(out)@) + sheet_entries(sheet@, context@),
{
    let ghost start = matched_views(out@);
    let ghost rules = sheet@;
    let mut i: usize = 0;
    while i < sheet.rules.len()
        invariant
            i <= sheet.rules.len(),
            rules == sheet@,
            rules.len() == sheet.rules@.len(),
            rules_fit(rules),
            matched_views(out@) =~= start + sheet_entries(rules.take(i as int), context@),
        decreases sheet.rules.len() - i,
    {
        proof {
            assert(rules[i as int] == sheet.rules@[i as int]@);
            assert forall|j: int| 0 <= j < sheet.rules@[i as int]@.selectors.len()
                implies specificity_spec(#[trigger] sheet.rules@[i as int]@.selectors[j]) <= u32::MAX by {
                assert(rules[i as int].selectors[j] == sheet.rules@[i as int]@.selectors[j]);
            }
            assert(rules.take(i + 1).drop_last() =~= rules.take(i as int));
        }
        push_rule_entries(&sheet.rules[i], context, out);
        i = i + 1;
    }
    proof {
        assert(rules.take(i as int) =~= rules);
    }
}

// ── The cascade ─────────────────────────────────────────────────────────

/// A candidate value for a property: (property, value, specificity, important).
pub open spec fn key_ge<T>(a: (String, T, u32, bool), b: (String, T, u32, bool)) -> bool {
    a.2 > b.2 || (a.2 == b.2 && (a.3 || !b.3))
}

/// Inserts `x` after every element whose key is at least its own.
pub open spec fn insert_sorted<T>(s: Seq<(String, T, u32, bool)>, x: (String, T, u32, bool)) -> Seq<(String, T, u32, bool)>
    decreases s.len(),
{
    if s.len() == 0 {
        seq![x]
    } else if key_ge(s.last(), x) {
        s.push(x)
    } else {
        insert_sorted(s.drop_last(), x).push(s.last())
    }
}

/// Stable sort, highest specificity first, `!important` first among equals.
pub open spec fn sort_by_precedence<T>(s: Seq<(String, T, u32, bool)>) -> Seq<(String, T, u32, bool)>
    decreases s.len(),
{
    if s.len() == 0 {
        Seq::empty()
    } else {
        insert_sorted(sort_by_precedence(s.drop_last()), s.last())
    }
}

pub open spec fn has_property<T>(s: Seq<(String, T, u32, bool)>, p: Seq<char>) -> bool {
    exists|i: int| 0 <= i < s.len() && (#[trigger] s[i]).0@ == p
}

/// Keeps the first entry of each property.
pub open spec fn first_of_each<T>(s: Seq<(String, T, u32, bool)>) -> Seq<(String, T)>
    decreases s.len(),
{
    if s.len() == 0 {
        Seq::empty()
    } else if has_property(s.drop_last(), s.last().0@) {
        first_of_each(s.drop_last())
    } else {
        first_of_each(s.drop_last()).push((s.last().0, s.last().1))
    }
}

/// The cascade: the value of highest precedence for each property.
pub open spec fn cascade_spec<T>(s: Seq<(String, T, u32, bool)>) -> Seq<(String, T)> {
    first_of_each(sort_by_precedence(s))
}

fn sort_in_place<T>(v: &mut Vec<(String, T, u32, bool)>)
    ensures
        final(v)@ == sort_by_precedence(old(v)@),
{
    let ghost orig = v@;
    let mut sorted: Vec<(String, T, u32, bool)> = Vec::new();
    let mut rest: Vec<(String, T, u32, bool)> = Vec::new();
    // Take the items out in reverse so that they are inserted in order.
    while v.len() > 0
        invariant
            v@ + rest@.reverse() =~= orig,
        decreases v.len(),
    {
        let x = v.pop().unwrap();
        let ghost before = rest@;
        rest.push(x);
        proof {
            assert(rest@.reverse() =~= seq![x] + before.reverse());
            assert(v@.push(x) + before.reverse() =~= v@ + rest@.reverse());
        }
    }
    proof {
        assert(v@ =~= Seq::<(String, T, u32, bool)>::empty());
        assert(rest@.reverse() =~= orig);
        assert(orig.skip(0) =~= orig);
        assert(sorted@ =~= sort_by_precedence(orig.take(0)));
    }
    while rest.len() > 0
        invariant
            rest@.len() <= orig.len(),
            rest@.reverse() =~= orig.skip(orig.len() - rest@.len()),
            sorted@ == sort_by_precedence(orig.take(orig.len() - rest@.len())),
        decreases rest.len(),
    {
        let ghost k = orig.len() - rest@.len();
        let x = rest.pop().unwrap();
        proof {
            assert(orig[k] == x) by {
                assert(rest@.push(x).reverse()[0] == x);
                assert(orig.skip(k)[0] == orig[k]);
            }
            assert(rest@.reverse() =~= orig.skip(k + 1)) by {
                assert(rest@.push(x).reverse() =~= orig.skip(k));
                assert forall|j: int| 0 <= j < rest@.len() implies rest@.reverse()[j] == orig.skip(k + 1)[j] by {
                    assert(rest@.push(x).reverse()[j + 1] == rest@.reverse()[j]);
                }
            }
            assert(orig.take(k + 1).drop_last() =~= orig.take(k));
        }
        // Find where `x` goes: after every element whose key is at least its own.
        let mut pos: usize = sorted.len();
        proof {
            assert(sorted@.take(pos as int) =~= sorted@);
            assert(insert_sorted(sorted@, x) + sorted@.skip(pos as int) =~= insert_sorted(sorted@, x));
        }
        while pos > 0 && !(sorted[pos - 1].2 > x.2 || (sorted[pos - 1].2 == x.2 && (sorted[pos - 1].3 || !x.3)))
            invariant
                pos <= sorted.len(),
                insert_sorted(sorted@, x) =~= insert_sorted(sorted@.take(pos as int), x) + sorted@.skip(pos as int),
            decreases pos,
        {
            proof {
                assert(sorted@.take(pos as int).drop_last() =~= sorted@.take(pos - 1));
                assert(sorted@.take(pos as int).last() == sorted@[pos - 1]);
                assert(seq![sorted@[pos - 1]] + sorted@.skip(pos as int) =~= sorted@.skip(pos - 1));
            }
            pos = pos - 1;
        }
        proof {
            if pos > 0 {
                assert(sorted@.take(pos as int).last() == sorted@[pos - 1]);
            }
            assert(insert_sorted(sorted@.take(pos as int), x) =~= sorted@.take(pos as int).push(x));
        }
        sorted.insert(pos, x);
        proof {
            assert(sorted@ =~= sort_by_precedence(orig.take(k + 1)));
        }
    }
    proof {
        assert(orig.take(orig.len() as int) =~= orig);
    }
    *v = sorted;
}


pub open spec fn seen_has(seen: Seq<String>, q: Seq<char>) -> bool {
    exists|i: int| 0 <= i < seen.len() && (#[trigger] seen[i])@ == q
}

fn seen_contains(seen: &Vec<String>, p: &String) -> (r: bool)
    ensures
        r == seen_has(seen@, p@),
{
    let mut i: usize = 0;
    while i < seen.len()
        invariant
            i <= seen.len(),
            forall|j: int| 0 <= j < i ==> (#[trigger] seen@[j])@ != p@,
        decreases seen.len() - i,
    {
        if seen[i] == *p {
            return true;
        }
        i = i + 1;
    }
    false
}

/// The cascade: candidates are ordered by precedence (highest specificity
/// first, `!important` first among equals, earlier first among ties), and
/// the first value of each property is kept.
pub fn cascade<T>(candidates: Vec<(String, T, u32, bool)>) -> (r: Vec<(String, T)>)
    ensures
        r@ == cascade_spec(candidates@),
{
    let mut sorted = candidates;
    sort_in_place(&mut sorted);
    let ghost all = sorted@;
    let mut seen: Vec<String> = Vec::new();
    let mut out: Vec<(String, T)> = Vec::new();
    let mut rest: Vec<(String, T, u32, bool)> = Vec::new();
    while sorted.len() > 0
        invariant
            sorted@ + rest@.reverse() =~= all,
        decreases sorted.len(),
    {
        let x = sorted.pop().unwrap();
        let ghost before = rest@;
        rest.push(x);
        proof {
            assert(rest@.reverse() =~= seq![x] + before.reverse());
            assert(sorted@.push(x) + before.reverse() =~= sorted@ + rest@.reverse());
        }
    }
    proof {
        assert(all.take(0) =~= Seq::<(String, T, u32, bool)>::empty());
        assert(rest@.reverse() =~= all);
        assert(all.skip(0) =~= all);
    }
    while rest.len() > 0
        invariant
            rest@.len() <= all.len(),
            rest@.reverse() =~= all.skip(all.len() - rest@.len()),
            out@ == first_of_each(all.take(all.len() - rest@.len())),
            forall|q: Seq<char>| #[trigger] seen_has(seen@, q) <==> has_property(all.take(all.len() - rest@.len()), q),
        decreases rest.len(),
    {
        let ghost k = all.len() - rest@.len();
        let x = rest.pop().unwrap();
        proof {
            assert(all[k] == x) by {
                assert(rest@.push(x).reverse()[0] == x);
                assert(all.skip(k)[0] == all[k]);
            }
            assert(rest@.reverse() =~= all.skip(k + 1)) by {
                assert(rest@.push(x).reverse() =~= all.skip(k));
                assert forall|j: int| 0 <= j < rest@.len() implies rest@.reverse()[j] == all.skip(k + 1)[j] by {
                    assert(rest@.push(x).reverse()[j + 1] == rest@.reverse()[j]);
                }
            }
            assert(all.take(k + 1).drop_last() =~= all.take(k));
            assert(all.take(k + 1).last() == x);
        }
        let (prop, value, _, _) = x;
        let ghost pv = prop@;
        if seen_contains(&seen, &prop) {
            proof {
                assert forall|q: Seq<char>| has_property(all.take(k + 1), q) implies has_property(all.take(k), q) by {
                    let i = choose|i: int| 0 <= i < all.take(k + 1).len() && (#[trigger] all.take(k + 1)[i]).0@ == q;
                    if i < k {
                        assert(all.take(k)[i] == all.take(k + 1)[i]);
                    }
                }
                assert forall|q: Seq<char>| has_property(all.take(k), q) implies has_property(all.take(k + 1), q) by {
                    let i = choose|i: int| 0 <= i < all.take(k).len() && (#[trigger] all.take(k)[i]).0@ == q;
                    assert(all.take(k)[i] == all.take(k + 1)[i]);
                }
            }
        } else {
            let ghost seen_before = seen@;
            seen.push(prop.clone());
            out.push((prop, value));
            proof {
                assert forall|q: Seq<char>| #[trigger] seen_has(seen@, q) <==> has_property(all.take(k + 1), q) by {
                    if seen_has(seen@, q) {
                        let i = choose|i: int| 0 <= i < seen@.len() && (#[trigger] seen@[i])@ == q;
                        if i < seen_before.len() {
                            assert(seen_before[i] == seen@[i]);
                            assert(seen_has(seen_before, q));
                            let j = choose|j: int| 0 <= j < all.take(k).len() && (#[trigger] all.take(k)[j]).0@ == q;
                            assert(all.take(k)[j] == all.take(k + 1)[j]);
                        } else {
                            assert(all.take(k + 1)[k] == x);
                        }
                    }
                    if has_property(all.take(k + 1), q) {
                        let j = choose|j: int| 0 <= j < all.take(k + 1).len() && (#[trigger] all.take(k + 1)[j]).0@ == q;
                        if j < k {
                            assert(all.take(k)[j] == all.take(k + 1)[j]);
                            assert(has_property(all.take(k), q));
                            assert(seen_has(seen_before, q));
                            let i = choose|i: int| 0 <= i < seen_before.len() && (#[trigger] seen_before[i])@ == q;
                            assert(seen@[i] == seen_before[i]);
                        } else {
                            assert(seen@[seen@.len() - 1]@ == q);
                        }
                    }
                }
            }
        }
    }
    proof {
        assert(all.take(all.len() as int) =~= all);
    }
    out
}

/// A style sheet stored under a name, with the file it was read from (empty
/// for a sheet loaded from a string) and that file's modification time.
pub struct SpecSheet {
    pub name: Seq<char>,
    pub path: Seq<char>,
    pub modified: u128,
    pub rules: Seq<SpecRule>,
}

/// Holds the application's style sheets, each under a distinct name.
pub struct StyleManager {
    files: Vec<(String, CssFile)>,
    watch_enabled: bool,
}

pub open spec fn names_distinct(files: Seq<SpecSheet>) -> bool {
    forall|i: int, j: int| 0 <= i < j < files.len() ==> (#[trigger] files[i]).name != (#[trigger] files[j]).name
}

/// Index of the sheet stored under `name`, if any.
pub open spec fn index_of(files: Seq<SpecSheet>, name: Seq<char>) -> Option<int> {
    if exists|i: int| 0 <= i < files.len() && (#[trigger] files[i]).name == name {
        Some(choose|i: int| 0 <= i < files.len() && (#[trigger] files[i]).name == name)
    } else {
        None
    }
}

/// Stores a sheet under its name: in place of a sheet of that name, or
/// else after the others.
pub open spec fn store(files: Seq<SpecSheet>, sheet: SpecSheet) -> Seq<SpecSheet> {
    match index_of(files, sheet.name) {
        Some(i) => files.update(i, sheet),
        None => files.push(sheet),
    }
}

/// Drops the sheet stored under `name`, if any.
pub open spec fn drop_sheet(files: Seq<SpecSheet>, name: Seq<char>) -> Seq<SpecSheet> {
    match index_of(files, name) {
        Some(i) => files.remove(i),
        None => files,
    }
}

/// The sheet stored under `name`, if any.
pub open spec fn sheet_of(files: Seq<SpecSheet>, name: Seq<char>) -> Option<SpecSheet> {
    match index_of(files, name) {
        Some(i) => Some(files[i]),
        None => None,
    }
}

/// With distinct names, the sheet found under a name is the one sheet of
/// that name.
proof fn lemma_index_of_unique(files: Seq<SpecSheet>, name: Seq<char>, i: int)
    requires
        names_distinct(files),
        0 <= i < files.len(),
        files[i].name == name,
    ensures
        index_of(files, name) == Some(i),
{
    let c = choose|c: int| 0 <= c < files.len() && (#[trigger] files[c]).name == name;
    if c != i {
        if c < i {
            assert(files[c].name != files[i].name);
        } else {
            assert(files[i].name != files[c].name);
        }
    }
}

/// Storing a sheet keeps the names distinct; a read under the stored name
/// gives back the stored sheet, and a read under any other name gives what
/// it gave before.
pub proof fn lemma_store_then_read(files: Seq<SpecSheet>, sheet: SpecSheet, other: Seq<char>)
    requires
        names_distinct(files),
    ensures
        names_distinct(store(files, sheet)),
        sheet_of(store(files, sheet), sheet.name) == Some(sheet),
        other != sheet.name ==> sheet_of(store(files, sheet), other) == sheet_of(files, other),
{
    let name = sheet.name;
    let t = store(files, sheet);
    let at = match index_of(files, name) {
        Some(i) => i,
        None => files.len() as int,
    };
    match index_of(files, name) {
        Some(i) => {
            assert(t == files.update(i, sheet));
        },
        None => {
            assert(t == files.push(sheet));
            assert forall|j: int| 0 <= j < files.len() implies (#[trigger] files[j]).name != name by {
                if files[j].name == name {
                    assert(exists|k: int| 0 <= k < files.len() && (#[trigger] files[k]).name == name);
                }
            }
        },
    }
    assert(t.len() >= 1 && 0 <= at < t.len() && t[at] == sheet);
    assert forall|j: int| 0 <= j < t.len() && j != at implies (#[trigger] t[j]) == files[j] by {}
    assert forall|a: int, b: int| 0 <= a < b < t.len() implies (#[trigger] t[a]).name != (#[trigger] t[b]).name by {
        if a != at && b != at {
            assert(files[a].name != files[b].name);
        } else if a == at {
            assert(t[b] == files[b]);
            if index_of(files, name) is Some {
                assert(files[at].name == name);
                assert(files[b].name != files[at].name);
            }
        } else {
            assert(t[a] == files[a]);
            if index_of(files, name) is Some {
                assert(files[at].name == name);
                assert(files[a].name != files[at].name);
            }
        }
    }
    lemma_index_of_unique(t, name, at);
    if other != name {
        match index_of(files, other) {
            Some(k) => {
                assert(files[k].name == other);
                assert(k != at);
                assert(t[k] == files[k]);
                lemma_index_of_unique(t, other, k);
            },
            None => {
                assert forall|j: int| 0 <= j < t.len() implies (#[trigger] t[j]).name != other by {
                    if j != at {
                        assert(t[j] == files[j]);
                        if files[j].name == other {
                            assert(exists|k: int| 0 <= k < files.len() && (#[trigger] files[k]).name == other);
                        }
                    }
                }
            },
        }
    }
}

/// Dropping a sheet keeps the names distinct; afterwards nothing is found
/// under its name, and a read under any other name gives what it gave
/// before.
pub proof fn lemma_drop_then_read(files: Seq<SpecSheet>, name: Seq<char>, other: Seq<char>)
    requires
        names_distinct(files),
    ensures
        names_distinct(drop_sheet(files, name)),
        sheet_of(drop_sheet(files, name), name) is None,
        other != name ==> sheet_of(drop_sheet(files, name), other) == sheet_of(files, other),
{
    let t = drop_sheet(files, name);
    match index_of(files, name) {
        Some(i) => {
            assert(files[i].name == name);
            assert(t == files.remove(i));
            assert forall|j: int| 0 <= j < t.len() implies (#[trigger] t[j]) == (if j < i { files[j] } else { files[j + 1] }) by {}
            assert forall|a: int, b: int| 0 <= a < b < t.len() implies (#[trigger] t[a]).name != (#[trigger] t[b]).name by {
                if b < i {
                    assert(files[a].name != files[b].name);
                } else if a < i {
                    assert(files[a].name != files[b + 1].name);
                } else {
                    assert(files[a + 1].name != files[b + 1].name);
                }
            }
            assert forall|j: int| 0 <= j < t.len() implies (#[trigger] t[j]).name != name by {
                if j < i {
                    assert(files[j].name != files[i].name);
                } else {
                    assert(files[i].name != files[j + 1].name);
                }
            }
            if other != name {
                match index_of(files, other) {
                    Some(k) => {
                        assert(files[k].name == other);
                        assert(k != i);
                        let kk = if k < i { k } else { k - 1 };
                        assert(t[kk] == files[k]);
                        lemma_index_of_unique(t, other, kk);
                    },
                    None => {
                        assert forall|j: int| 0 <= j < t.len() implies (#[trigger] t[j]).name != other by {
                            let jj = if j < i { j } else { j + 1 };
                            assert(t[j] == files[jj]);
                            if files[jj].name == other {
                                assert(exists|k: int| 0 <= k < files.len() && (#[trigger] files[k]).name == other);
                            }
                        }
                    },
                }
            }
        },
        None => {
            assert(t == files);
        },
    }
}

pub open spec fn sheet_rules(files: Seq<SpecSheet>) -> Seq<Seq<SpecRule>> {
    files.map_values(|f: SpecSheet| f.rules)
}

impl Default for StyleManager {
    fn default() -> (r: Self)
        ensures
            r.wf(),
            r.sheets() == Seq::<SpecSheet>::empty(),
            r.watching(),
    {
        Self::new()
    }
}

impl StyleManager {
    /// The stored sheets, in the order they were first stored.
    pub closed spec fn sheets(&self) -> Seq<SpecSheet> {
        self.files@.map_values(|e: (String, CssFile)| e.1.sheet_named(e.0@))
    }

    /// Whether file watching is enabled.
    pub closed spec fn watching(&self) -> bool {
        self.watch_enabled
    }

    /// The manager is consistent: no two sheets share a name.
    pub open spec fn wf(&self) -> bool {
        names_distinct(self.sheets())
    }

    pub fn new() -> (r: Self)
        ensures
            r.wf(),
            r.sheets() == Seq::<SpecSheet>::empty(),
            r.watching(),
    {
        let r = StyleManager { files: Vec::new(), watch_enabled: true };
        proof {
            assert(r.sheets() =~= Seq::<SpecSheet>::empty());
        }
        r
    }

    fn find(&self, name: &str) -> (r: Option<usize>)
        requires
            self.wf(),
        ensures
            r matches Some(i) ==> index_of(self.sheets(), name@) == Some(i as int) && i < self.sheets().len()
                && self.sheets()[i as int].name == name@,
            r is None ==> index_of(self.sheets(), name@) is None,
    {
        let key = String::from_str(name);
        let mut i: usize = 0;
        while i < self.files.len()
            invariant
                i <= self.files.len(),
                key@ == name@,
                self.wf(),
                self.sheets().len() == self.files@.len(),
                forall|j: int| 0 <= j < i ==> (#[trigger] self.sheets()[j]).name != name@,
            decreases self.files.len() - i,
        {
            proof {
                assert(self.sheets()[i as int].name == self.files@[i as int].0@);
            }
            if self.files[i].0 == key {
                proof {
                    assert(self.sheets()[i as int].name == name@);
                    let k = choose|k: int| 0 <= k < self.sheets().len() && (#[trigger] self.sheets()[k]).name == name@;
                    if k != i {
                        if k < i {
                            assert(self.sheets()[k].name != name@);
                        } else {
                            assert(self.sheets()[i as int].name != self.sheets()[k].name);
                        }
                    }
                    assert(index_of(self.sheets(), name@) == Some(i as int));
                }
                return Some(i);
            }
            i = i + 1;
        }
        proof {
            assert(!(exists|k: int| 0 <= k < self.sheets().len() && (#[trigger] self.sheets()[k]).name == name@));
        }
        None
    }

    /// Stores an already loaded sheet under `name`, replacing any sheet of
    /// that name.
    pub fn insert_file(&mut self, name: &str, file: CssFile)
        requires
            old(self).wf(),
        ensures
            final(self).wf(),
            final(self).sheets() == store(old(self).sheets(), file.sheet_named(name@)),
            final(self).watching() == old(self).watching(),
    {
        let ghost sheet = file.sheet_named(name@);
        match self.find(name) {
            Some(i) => {
                self.files.set(i, (String::from_str(name), file));
                proof {
                    assert(self.sheets() =~= old(self).sheets().update(i as int, sheet));
                    assert forall|a: int, b: int| 0 <= a < b < self.sheets().len()
                        implies (#[trigger] self.sheets()[a]).name != (#[trigger] self.sheets()[b]).name by {
                        assert(self.sheets()[a].name == old(self).sheets()[a].name);
                        assert(self.sheets()[b].name == old(self).sheets()[b].name);
                        assert(old(self).sheets()[a].name != old(self).sheets()[b].name);
                    }
                }
            },
            None => {
                self.files.push((String::from_str(name), file));
                proof {
                    assert(self.sheets() =~= old(self).sheets().push(sheet));
                    assert forall|a: int, b: int| 0 <= a < b < self.sheets().len()
                        implies (#[trigger] self.sheets()[a]).name != (#[trigger] self.sheets()[b]).name by {
                        if b == self.sheets().len() - 1 {
                            assert(self.sheets()[a] == old(self).sheets()[a]);
                        } else {
                            assert(old(self).sheets()[a].name != old(self).sheets()[b].name);
                        }
                    }
                }
            },
        }
    }

    /// Parses `source` and stores it under `name`, replacing any sheet of
    /// that name.
    pub fn load_string(&mut self, name: &str, source: &str)
        requires
            old(self).wf(),
        ensures
            final(self).wf(),
            final(self).sheets() == store(old(self).sheets(), (SpecSheet { name: name@, path: seq![], modified: 0, rules: parse_stylesheet_spec(source@) })),
            final(self).watching() == old(self).watching(),
    {
        let file = CssFile::from_source("", source, 0);
        proof {
            reveal_strlit("");
            assert(file.path@ =~= Seq::<char>::empty());
        }
        self.insert_file(name, file);
    }

    /// Drops the sheet stored under `name`, if any.
    pub fn remove(&mut self, name: &str)
        requires
            old(self).wf(),
        ensures
            final(self).wf(),
            final(self).sheets() == drop_sheet(old(self).sheets(), name@),
            final(self).watching() == old(self).watching(),
    {
        match self.find(name) {
            Some(i) => {
                self.files.remove(i);
                proof {
                    assert(self.sheets() =~= old(self).sheets().remove(i as int));
                    assert forall|a: int, b: int| 0 <= a < b < self.sheets().len()
                        implies (#[trigger] self.sheets()[a]).name != (#[trigger] self.sheets()[b]).name by {
                        if a < i {
                            if b < i {
                                assert(old(self).sheets()[a].name != old(self).sheets()[b].name);
                            } else {
                                assert(old(self).sheets()[a].name != old(self).sheets()[b + 1].name);
                            }
                        } else {
                            assert(old(self).sheets()[a + 1].name != old(self).sheets()[b + 1].name);
                        }
                    }
                }
            },
            None => {},
        }
    }

    /// The name and file path of each stored sheet, in order.
    pub fn paths(&self) -> (r: Vec<(String, String)>)
        ensures
            r@.len() == self.sheets().len(),
            forall|i: int| 0 <= i < r@.len() ==> (#[trigger] r@[i]).0@ == self.sheets()[i].name
                && r@[i].1@ == self.sheets()[i].path,
    {
        let mut out: Vec<(String, String)> = Vec::new();
        let mut i: usize = 0;
        while i < self.files.len()
            invariant
                i <= self.files.len(),
                self.sheets().len() == self.files@.len(),
                out@.len() == i,
                forall|k: int| 0 <= k < i ==> (#[trigger] out@[k]).0@ == self.sheets()[k].name
                    && out@[k].1@ == self.sheets()[k].path,
            decreases self.files.len() - i,
        {
            out.push((self.files[i].0.clone(), self.files[i].1.path.clone()));
            i = i + 1;
        }
        out
    }

    /// Whether the file of the sheet stored under `name` was modified (at
    /// `modified`) after the sheet was read; false when there is no such
    /// sheet.
    pub fn is_stale(&self, name: &str, modified: u128) -> (r: bool)
        requires
            self.wf(),
        ensures
            r == (sheet_of(self.sheets(), name@) matches Some(s) && modified > s.modified),
    {
        match self.find(name) {
            Some(i) => self.files[i].1.is_stale(modified),
            None => false,
        }
    }

    /// Reloads the sheet stored under `name` from its file's text `source`,
    /// read when the file was last modified at `modified`. Only a sheet whose
    /// file is newer than it is replaced (keeping its name and path); the
    /// result says whether it was.
    pub fn reload_file(&mut self, name: &str, modified: u128, source: &str) -> (r: bool)
        requires
            old(self).wf(),
        ensures
            final(self).wf(),
            r == (sheet_of(old(self).sheets(), name@) matches Some(s) && modified > s.modified),
            r ==> final(self).sheets() == store(old(self).sheets(), (SpecSheet {
                name: name@,
                path: sheet_of(old(self).sheets(), name@)->0.path,
                modified,
                rules: parse_stylesheet_spec(source@),
            })),
            !r ==> final(self).sheets() == old(self).sheets(),
            final(self).watching() == old(self).watching(),
    {
        match self.find(name) {
            Some(i) => {
                if self.files[i].1.is_stale(modified) {
                    let (key, mut file) = self.files.remove(i);
                    proof {
                        assert(old(self).sheets()[i as int] == file.sheet_named(key@));
                    }
                    file.refresh(source, modified);
                    self.files.insert(i, (key, file));
                    proof {
                        let sheet = SpecSheet {
                            name: name@,
                            path: old(self).sheets()[i as int].path,
                            modified,
                            rules: parse_stylesheet_spec(source@),
                        };
                        assert(self.sheets() =~= old(self).sheets().update(i as int, sheet));
                        assert forall|a: int, b: int| 0 <= a < b < self.sheets().len()
                            implies (#[trigger] self.sheets()[a]).name != (#[trigger] self.sheets()[b]).name by {
                            assert(self.sheets()[a].name == old(self).sheets()[a].name);
                            assert(self.sheets()[b].name == old(self).sheets()[b].name);
                            assert(old(self).sheets()[a].name != old(self).sheets()[b].name);
                        }
                    }
                    true
                } else {
                    false
                }
            },
            None => false,
        }
    }

    /// Enables or disables file watching.
    pub fn set_watch(&mut self, enabled: bool)
        ensures
            final(self).sheets() == old(self).sheets(),
            final(self).watching() == enabled,
    {
        self.watch_enabled = enabled;
    }

    /// Every selector of every stored sheet has a specificity that fits in
    /// a `u32`.
    pub open spec fn fits(&self) -> bool {
        forall|i: int| 0 <= i < self.sheets().len() ==> rules_fit(#[trigger] self.sheets()[i].rules)
    }

    /// Checks `fits`.
    pub fn specificities_fit(&self) -> (r: bool)
        ensures
            r == self.fits(),
    {
        let mut i: usize = 0;
        while i < self.files.len()
            invariant
                i <= self.files.len(),
                self.sheets().len() == self.files@.len(),
                forall|k: int| 0 <= k < i ==> rules_fit(#[trigger] self.sheets()[k].rules),
            decreases self.files.len() - i,
        {
            let rules = &self.files[i].1.stylesheet.rules;
            let ghost rv = self.sheets()[i as int].rules;
            proof {
                assert(rv == rules@.map_values(|r: Rule| r@));
            }
            let mut a: usize = 0;
            while a < rules.len()
                invariant
                    a <= rules.len(),
                    i < self.files.len(),
                    self.sheets().len() == self.files@.len(),
                    rv == self.sheets()[i as int].rules,
                    forall|k: int| 0 <= k < i ==> rules_fit(#[trigger] self.sheets()[k].rules),
                    rv == rules@.map_values(|r: Rule| r@),
                    forall|x: int, y: int| 0 <= x < a && 0 <= y < rv[x].selectors.len()
                        ==> specificity_spec(#[trigger] rv[x].selectors[y]) <= u32::MAX,
                decreases rules.len() - a,
            {
                let sels = &rules[a].selectors;
                let mut b: usize = 0;
                while b < sels.len()
                    invariant
                        b <= sels.len(),
                        a < rules.len(),
                        i < self.files.len(),
                        self.sheets().len() == self.files@.len(),
                        rv == self.sheets()[i as int].rules,
                        forall|k: int| 0 <= k < i ==> rules_fit(#[trigger] self.sheets()[k].rules),
                        rv == rules@.map_values(|r: Rule| r@),
                        sels@ == rules@[a as int].selectors@,
                        forall|x: int, y: int| 0 <= x < a && 0 <= y < rv[x].selectors.len()
                            ==> specificity_spec(#[trigger] rv[x].selectors[y]) <= u32::MAX,
                        forall|y: int| 0 <= y < b ==> specificity_spec(#[trigger] rv[a as int].selectors[y]) <= u32::MAX,
                    decreases sels.len() - b,
                {
                    proof {
                        assert(rv[a as int].selectors[b as int] == sels@[b as int]@);
                    }
                    if checked_specificity(&sels[b]).is_none() {
                        proof {
                            assert(!rules_fit(self.sheets()[i as int].rules));
                        }
                        return false;
                    }
                    b = b + 1;
                }
                proof {
                    assert(rv[a as int].selectors.len() == sels@.len());
                }
                a = a + 1;
            }
            proof {
                assert(rules_fit(rv));
            }
            i = i + 1;
        }
        true
    }

    /// The declarations of all stored sheets that apply to a widget, in
    /// sheet order, then rule order, then declaration order, each with the
    /// specificity of its rule.
    pub fn matched_declarations<'a>(&'a self, context: &MatchContext) -> (r: Vec<MatchedDeclaration<'a>>)
        requires
            self.fits(),
        ensures
            matched_views(r@) =~= files_entries(sheet_rules(self.sheets()), context@),
    {
        let mut out: Vec<MatchedDeclaration<'a>> = Vec::new();
        let ghost sheets = sheet_rules(self.sheets());
        let mut i: usize = 0;
        proof {
            assert(matched_views(out@) =~= Seq::<SpecEntry>::empty());
        }
        while i < self.files.len()
            invariant
                i <= self.files.len(),
                self.fits(),
                sheets == sheet_rules(self.sheets()),
                sheets.len() == self.files@.len(),
                matched_views(out@) =~= files_entries(sheets.take(i as int), context@),
            decreases self.files.len() - i,
        {
            proof {
                assert(sheets[i as int] == self.files@[i as int].1.stylesheet@);
                assert(rules_fit(self.sheets()[i as int].rules));
                assert(sheets.take(i + 1).drop_last() =~= sheets.take(i as int));
            }
            push_sheet_entries(&self.files[i].1.stylesheet, context, &mut out);
            i = i + 1;
        }
        proof {
            assert(sheets.take(i as int) =~= sheets);
        }
        out
    }
}

} // verus!

//! Cache of resolved styles, so that a widget's styles are not matched
//! again on every frame.
use vstd::prelude::*;
use super::selector::{MatchContext, SpecContext, SpecSelector, opt_string_view, selector_matches, strings_view};
use super::parser::SpecRule;
use crate::text::{ascii_lowercase, chars_of, to_ascii_lowercase};
use super::stylesheet::{rule_applies, rule_entries, sheet_entries, files_entries};

verus! {

// ── The cache key ───────────────────────────────────────────────────────

/// Lexicographic order of strings by code point (the order of `String`).
pub open spec fn chars_lt(a: Seq<char>, b: Seq<char>) -> bool
    decreases a.len(),
{
    if a.len() == 0 {
        b.len() > 0
    } else if b.len() == 0 {
        false
    } else if a[0] != b[0] {
        a[0] < b[0]
    } else {
        chars_lt(a.drop_first(), b.drop_first())
    }
}

/// Inserts `x` into a sorted sequence, after every element not above it.
pub open spec fn insert_str(s: Seq<Seq<char>>, x: Seq<char>) -> Seq<Seq<char>>
    decreases s.len(),
{
    if s.len() == 0 {
        seq![x]
    } else if !chars_lt(x, s.last()) {
        s.push(x)
    } else {
        insert_str(s.drop_last(), x).push(s.last())
    }
}

/// The strings in ascending order.
pub open spec fn sort_strs(s: Seq<Seq<char>>) -> Seq<Seq<char>>
    decreases s.len(),
{
    if s.len() == 0 {
        Seq::empty()
    } else {
        insert_str(sort_strs(s.drop_last()), s.last())
    }
}

/// The key under which a context's styles are cached: the widget type with
/// its ASCII letters lowered (type selectors ignore ASCII case alone), the
/// classes in ascending order, the pseudo-classes and the id. Two contexts
/// with one key match the same selectors.
pub struct CacheKey {
    pub widget_type: Seq<char>,
    pub classes: Seq<Seq<char>>,
    pub pseudo: Seq<Seq<char>>,
    pub id: Option<Seq<char>>,
}

pub open spec fn cache_key(ctx: SpecContext) -> CacheKey {
    CacheKey {
        widget_type: ascii_lowercase(ctx.widget_type),
        classes: sort_strs(ctx.classes),
        pseudo: ctx.pseudo,
        id: ctx.id,
    }
}

/// The ascending order of strings: `a` comes before `b` or equals it.
pub open spec fn str_order() -> spec_fn(Seq<char>, Seq<char>) -> bool {
    |a: Seq<char>, b: Seq<char>| !chars_lt(b, a)
}

proof fn lemma_chars_lt_irreflexive(a: Seq<char>)
    ensures
        !chars_lt(a, a),
    decreases a.len(),
{
    if a.len() > 0 {
        lemma_chars_lt_irreflexive(a.drop_first());
    }
}

proof fn lemma_chars_lt_transitive(a: Seq<char>, b: Seq<char>, c: Seq<char>)
    requires
        chars_lt(a, b),
        chars_lt(b, c),
    ensures
        chars_lt(a, c),
    decreases a.len(),
{
    if a.len() > 0 && b.len() > 0 && c.len() > 0 && a[0] == b[0] && b[0] == c[0] {
        lemma_chars_lt_transitive(a.drop_first(), b.drop_first(), c.drop_first());
    }
}

proof fn lemma_chars_lt_asymmetric(a: Seq<char>, b: Seq<char>)
    requires
        chars_lt(a, b),
    ensures
        !chars_lt(b, a),
{
    if chars_lt(b, a) {
        lemma_chars_lt_transitive(a, b, a);
        lemma_chars_lt_irreflexive(a);
    }
}

proof fn lemma_chars_lt_total(a: Seq<char>, b: Seq<char>)
    ensures
        a == b || chars_lt(a, b) || chars_lt(b, a),
    decreases a.len(),
{
    if a.len() > 0 && b.len() > 0 {
        if a[0] == b[0] {
            lemma_chars_lt_total(a.drop_first(), b.drop_first());
            if a.drop_first() == b.drop_first() {
                assert(a =~= seq![a[0]] + a.drop_first());
                assert(b =~= seq![b[0]] + b.drop_first());
            }
        } else {
            assert(a[0] < b[0] || b[0] < a[0]);
        }
    } else if a.len() == 0 && b.len() == 0 {
        assert(a =~= b);
    }
}

proof fn lemma_str_order_total()
    ensures
        vstd::relations::total_ordering(str_order()),
{
    let leq = str_order();
    assert forall|a: Seq<char>| #[trigger] leq(a, a) by {
        lemma_chars_lt_irreflexive(a);
    }
    assert forall|a: Seq<char>, b: Seq<char>| #[trigger] leq(a, b) && #[trigger] leq(b, a) implies a == b by {
        lemma_chars_lt_total(a, b);
    }
    assert forall|a: Seq<char>, b: Seq<char>, c: Seq<char>| #[trigger] leq(a, b) && #[trigger] leq(b, c) implies leq(a, c) by {
        if chars_lt(c, a) {
            lemma_chars_lt_total(a, b);
            if chars_lt(a, b) {
                lemma_chars_lt_transitive(c, a, b);
            }
        }
    }
    assert forall|a: Seq<char>, b: Seq<char>| #[trigger] leq(a, b) || #[trigger] leq(b, a) by {
        if chars_lt(a, b) {
            lemma_chars_lt_asymmetric(a, b);
        }
    }
}

/// Where `insert_str(u, x)` puts `x`.
proof fn lemma_insert_str_shape(u: Seq<Seq<char>>, x: Seq<char>) -> (m: int)
    ensures
        0 <= m <= u.len(),
        insert_str(u, x) == u.take(m) + seq![x] + u.skip(m),
        m > 0 ==> !chars_lt(x, u[m - 1]),
        forall|j: int| m <= j < u.len() ==> chars_lt(x, #[trigger] u[j]),
    decreases u.len(),
{
    if u.len() == 0 {
        assert(insert_str(u, x) =~= u.take(0) + seq![x] + u.skip(0));
        0
    } else if !chars_lt(x, u.last()) {
        let m = u.len() as int;
        assert(insert_str(u, x) =~= u.take(m) + seq![x] + u.skip(m));
        m
    } else {
        let v = u.drop_last();
        let m = lemma_insert_str_shape(v, x);
        assert(v.take(m) =~= u.take(m));
        assert(v.skip(m).push(u.last()) =~= u.skip(m));
        assert(insert_str(u, x) =~= u.take(m) + seq![x] + u.skip(m));
        assert forall|j: int| m <= j < u.len() implies chars_lt(x, #[trigger] u[j]) by {
            if j < v.len() {
                assert(u[j] == v[j]);
            }
        }
        m
    }
}

/// Sorting keeps the strings and puts them in ascending order.
proof fn lemma_sort_strs(s: Seq<Seq<char>>)
    ensures
        sort_strs(s).to_multiset() == s.to_multiset(),
        vstd::relations::sorted_by(sort_strs(s), str_order()),
    decreases s.len(),
{
    broadcast use vstd::seq_lib::group_to_multiset_ensures;
    broadcast use vstd::multiset::group_multiset_axioms;
    let leq = str_order();
    if s.len() == 0 {
        assert(sort_strs(s) =~= s);
        return;
    }
    let t = s.drop_last();
    let x = s.last();
    lemma_sort_strs(t);
    lemma_str_order_total();
    let u = sort_strs(t);
    let m = lemma_insert_str_shape(u, x);
    let y = sort_strs(s);
    let a = u.take(m);
    let b = u.skip(m);
    assert(y == insert_str(u, x));
    assert(y =~= a + (seq![x] + b));
    assert(u =~= a + b);
    vstd::seq_lib::lemma_multiset_commutative(a, seq![x] + b);
    vstd::seq_lib::lemma_multiset_commutative(seq![x], b);
    vstd::seq_lib::lemma_multiset_commutative(a, b);
    assert(seq![x] =~= Seq::<Seq<char>>::empty().push(x));
    assert(Seq::<Seq<char>>::empty().to_multiset() =~= vstd::multiset::Multiset::<Seq<char>>::empty());
    assert(s =~= t.push(x));
    assert(y.to_multiset() =~= s.to_multiset());
    assert forall|i: int, j: int| 0 <= i < j < y.len() implies #[trigger] leq(y[i], y[j]) by {
        if i < m {
            assert(y[i] == u[i]);
            if j < m {
                assert(y[j] == u[j]);
                assert(leq(u[i], u[j]));
            } else if j == m {
                assert(y[j] == x);
                assert(leq(u[m - 1], x));
                if i < m - 1 {
                    assert(leq(u[i], u[m - 1]));
                }
            } else {
                assert(y[j] == u[j - 1]);
                assert(leq(u[i], u[j - 1]));
            }
        } else if i == m {
            assert(y[i] == x);
            assert(y[j] == u[j - 1]);
            lemma_chars_lt_asymmetric(x, u[j - 1]);
        } else {
            assert(y[i] == u[i - 1]);
            assert(y[j] == u[j - 1]);
            assert(leq(u[i - 1], u[j - 1]));
        }
    }
}

/// The cache key ignores the order of a widget's classes and the ASCII case
/// of its type: contexts with the same type up to ASCII case, the same
/// classes in any order, the same pseudo-classes and the same id share one
/// cache entry.
pub proof fn lemma_cache_key_ignores_class_order(a: SpecContext, b: SpecContext)
    requires
        ascii_lowercase(a.widget_type) == ascii_lowercase(b.widget_type),
        a.classes.to_multiset() == b.classes.to_multiset(),
        a.pseudo == b.pseudo,
        a.id == b.id,
    ensures
        cache_key(a) == cache_key(b),
{
    lemma_sort_strs(a.classes);
    lemma_sort_strs(b.classes);
    lemma_str_order_total();
    vstd::seq_lib::lemma_sorted_unique(sort_strs(a.classes), sort_strs(b.classes), str_order());
}

/// Contexts of one cache key match the same selectors.
pub proof fn lemma_same_key_same_match(sel: SpecSelector, a: SpecContext, b: SpecContext)
    requires
        cache_key(a) == cache_key(b),
    ensures
        selector_matches(sel, a) == selector_matches(sel, b),
    decreases sel,
{
    broadcast use vstd::seq_lib::group_to_multiset_ensures;
    match sel {
        SpecSelector::Type(n) => {
            let la = ascii_lowercase(a.widget_type);
            let lb = ascii_lowercase(b.widget_type);
            assert(la.len() == a.widget_type.len());
            assert(lb.len() == b.widget_type.len());
            assert forall|i: int| 0 <= i < a.widget_type.len()
                implies crate::text::ascii_lower(#[trigger] a.widget_type[i]) == crate::text::ascii_lower(b.widget_type[i]) by {
                assert(la[i] == lb[i]);
            }
        },
        SpecSelector::Class(n) => {
            lemma_sort_strs(a.classes);
            lemma_sort_strs(b.classes);
            assert(a.classes.contains(n) <==> a.classes.to_multiset().count(n) > 0);
            assert(b.classes.contains(n) <==> b.classes.to_multiset().count(n) > 0);
        },
        SpecSelector::And(x, y) => {
            lemma_same_key_same_match(*x, a, b);
            lemma_same_key_same_match(*y, a, b);
        },
        SpecSelector::Descendant(_, y) => {
            lemma_same_key_same_match(*y, a, b);
        },
        SpecSelector::Child(_, y) => {
            lemma_same_key_same_match(*y, a, b);
        },
        _ => {},
    }
}

proof fn lemma_same_key_same_rule(rule: SpecRule, a: SpecContext, b: SpecContext)
    requires
        cache_key(a) == cache_key(b),
    ensures
        rule_entries(rule, a) == rule_entries(rule, b),
{
    assert forall|i: int| 0 <= i < rule.selectors.len()
        implies selector_matches(#[trigger] rule.selectors[i], a) == selector_matches(rule.selectors[i], b) by {
        lemma_same_key_same_match(rule.selectors[i], a, b);
    }
    assert(rule_applies(rule, a) == rule_applies(rule, b));
}

proof fn lemma_same_key_same_sheet(rules: Seq<SpecRule>, a: SpecContext, b: SpecContext)
    requires
        cache_key(a) == cache_key(b),
    ensures
        sheet_entries(rules, a) == sheet_entries(rules, b),
    decreases rules.len(),
{
    if rules.len() > 0 {
        lemma_same_key_same_sheet(rules.drop_last(), a, b);
        lemma_same_key_same_rule(rules.last(), a, b);
    }
}

/// Contexts of one cache key receive the same declarations from any style
/// sheets, so the styles cached for one serve the other.
pub proof fn lemma_same_key_same_declarations(sheets: Seq<Seq<SpecRule>>, a: SpecContext, b: SpecContext)
    requires
        cache_key(a) == cache_key(b),
    ensures
        files_entries(sheets, a) == files_entries(sheets, b),
    decreases sheets.len(),
{
    if sheets.len() > 0 {
        lemma_same_key_same_declarations(sheets.drop_last(), a, b);
        lemma_same_key_same_sheet(sheets.last(), a, b);
    }
}

fn chars_less(a: &Vec<char>, b: &Vec<char>) -> (r: bool)
    ensures
        r == chars_lt(a@, b@),
{
    let mut i: usize = 0;
    proof {
        assert(a@.skip(0) =~= a@);
        assert(b@.skip(0) =~= b@);
    }
    while i < a.len() && i < b.len() && a[i] == b[i]
        invariant
            i <= a.len(),
            i <= b.len(),
            chars_lt(a@, b@) == chars_lt(a@.skip(i as int), b@.skip(i as int)),
        decreases a.len() - i,
    {
        proof {
            assert(a@.skip(i as int).drop_first() =~= a@.skip(i + 1));
            assert(b@.skip(i as int).drop_first() =~= b@.skip(i + 1));
        }
        i = i + 1;
    }
    proof {
        if i < a.len() && i < b.len() {
            assert(a@.skip(i as int)[0] == a@[i as int]);
            assert(b@.skip(i as int)[0] == b@[i as int]);
        }
    }
    if i == a.len() {
        i < b.len()
    } else if i == b.len() {
        false
    } else {
        a[i] < b[i]
    }
}

fn same_chars(a: &Vec<char>, b: &Vec<char>) -> (r: bool)
    ensures
        r == (a@ == b@),
{
    if a.len() != b.len() {
        return false;
    }
    let mut i: usize = 0;
    while i < a.len()
        invariant
            a.len() == b.len(),
            i <= a.len(),
            forall|j: int| 0 <= j < i ==> a@[j] == b@[j],
        decreases a.len() - i,
    {
        if a[i] != b[i] {
            return false;
        }
        i = i + 1;
    }
    proof {
        assert(a@ =~= b@);
    }
    true
}

pub open spec fn chars_views(v: Seq<Vec<char>>) -> Seq<Seq<char>> {
    v.map_values(|c: Vec<char>| c@)
}

fn same_char_lists(a: &Vec<Vec<char>>, b: &Vec<Vec<char>>) -> (r: bool)
    ensures
        r == (chars_views(a@) == chars_views(b@)),
{
    if a.len() != b.len() {
        proof {
            assert(chars_views(a@).len() != chars_views(b@).len());
        }
        return false;
    }
    let mut i: usize = 0;
    while i < a.len()
        invariant
            a.len() == b.len(),
            i <= a.len(),
            forall|j: int| 0 <= j < i ==> a@[j]@ == b@[j]@,
        decreases a.len() - i,
    {
        if !same_chars(&a[i], &b[i]) {
            proof {
                assert(chars_views(a@)[i as int] != chars_views(b@)[i as int]);
            }
            return false;
        }
        i = i + 1;
    }
    proof {
        assert(chars_views(a@) =~= chars_views(b@));
    }
    true
}

fn sort_strings(v: &Vec<String>) -> (r: Vec<Vec<char>>)
    ensures
        chars_views(r@) == sort_strs(strings_view(v@)),
{
    let ghost sv = strings_view(v@);
    let mut sorted: Vec<Vec<char>> = Vec::new();
    let mut k: usize = 0;
    proof {
        assert(chars_views(sorted@) =~= sort_strs(sv.take(0)));
    }
    while k < v.len()
        invariant
            k <= v.len(),
            sv == strings_view(v@),
            sv.len() == v@.len(),
            chars_views(sorted@) == sort_strs(sv.take(k as int)),
        decreases v.len() - k,
    {
        let x = chars_of(v[k].as_str());
        let ghost xs = x@;
        let ghost sm = chars_views(sorted@);
        proof {
            assert(sv[k as int] == xs);
            assert(sv.take(k + 1).drop_last() =~= sv.take(k as int));
        }
        let mut pos: usize = sorted.len();
        proof {
            assert(sm.take(pos as int) =~= sm);
            assert(insert_str(sm, xs) + sm.skip(pos as int) =~= insert_str(sm, xs));
        }
        while pos > 0 && chars_less(&x, &sorted[pos - 1])
            invariant
                pos <= sorted.len(),
                xs == x@,
                sm == chars_views(sorted@),
                insert_str(sm, xs) =~= insert_str(sm.take(pos as int), xs) + sm.skip(pos as int),
            decreases pos,
        {
            proof {
                assert(sm.take(pos as int).drop_last() =~= sm.take(pos - 1));
                assert(sm.take(pos as int).last() == sm[pos - 1]);
                assert(seq![sm[pos - 1]] + sm.skip(pos as int) =~= sm.skip(pos - 1));
            }
            pos = pos - 1;
        }
        proof {
            if pos > 0 {
                assert(sm.take(pos as int).last() == sm[pos - 1]);
            }
            assert(insert_str(sm.take(pos as int), xs) =~= sm.take(pos as int).push(xs));
        }
        sorted.insert(pos, x);
        proof {
            assert(chars_views(sorted@) =~= sm.take(pos as int).push(xs) + sm.skip(pos as int));
        }
        k = k + 1;
    }
    proof {
        assert(sv.take(v.len() as int) =~= sv);
    }
    sorted
}

fn strings_to_chars(v: &Vec<String>) -> (r: Vec<Vec<char>>)
    ensures
        chars_views(r@) == strings_view(v@),
{
    let mut out: Vec<Vec<char>> = Vec::new();
    let mut i: usize = 0;
    while i < v.len()
        invariant
            i <= v.len(),
            chars_views(out@) =~= strings_view(v@).take(i as int),
        decreases v.len() - i,
    {
        let ghost before = out@;
        out.push(chars_of(v[i].as_str()));
        proof {
            assert(chars_views(out@) =~= chars_views(before).push(v@[i as int]@));
            assert(strings_view(v@).take(i + 1) =~= strings_view(v@).take(i as int).push(v@[i as int]@));
        }
        i = i + 1;
    }
    proof {
        assert(strings_view(v@).take(v.len() as int) =~= strings_view(v@));
    }
    out
}

/// A cache key as it is stored.
struct Key {
    widget_type: String,
    classes: Vec<Vec<char>>,
    pseudo: Vec<Vec<char>>,
    id: Option<String>,
}

spec fn key_view(k: Key) -> CacheKey {
    CacheKey {
        widget_type: k.widget_type@,
        classes: chars_views(k.classes@),
        pseudo: chars_views(k.pseudo@),
        id: opt_string_view(k.id),
    }
}

fn same_key(a: &Key, b: &Key) -> (r: bool)
    ensures
        r == (key_view(*a) == key_view(*b)),
{
    let same_type = a.widget_type == b.widget_type;
    let same_classes = same_char_lists(&a.classes, &b.classes);
    let same_pseudo = same_char_lists(&a.pseudo, &b.pseudo);
    let same_id = match (&a.id, &b.id) {
        (Some(x), Some(y)) => *x == *y,
        (None, None) => true,
        _ => false,
    };
    same_type && same_classes && same_pseudo && same_id
}

fn make_key(context: &MatchContext) -> (r: Key)
    ensures
        key_view(r) == cache_key(context@),
{
    let id = match &context.id {
        Some(s) => Some(s.clone()),
        None => None,
    };
    Key {
        widget_type: to_ascii_lowercase(context.widget_type.as_str()),
        classes: sort_strings(&context.classes),
        pseudo: strings_to_chars(&context.pseudo),
        id,
    }
}

// ── The cache ───────────────────────────────────────────────────────────

/// A cached value: its key, the value, and the generation it was computed in.
pub struct SpecCacheEntry<V> {
    pub key: CacheKey,
    pub styles: V,
    pub generation: u64,
}

struct CacheEntry<V> {
    styles: V,
    generation: u64,
}

/// Cache of resolved styles, keyed by widget type, classes, pseudo-classes
/// and id. Entries computed before the last invalidation are stale; a value
/// that is not cached is computed by the function the cache was made with.
pub struct StyleCache<V, F> {
    entries: Vec<(Key, CacheEntry<V>)>,
    generation: u64,
    max_entries: usize,
    compute: F,
}

pub open spec fn keys_distinct<V>(s: Seq<SpecCacheEntry<V>>) -> bool {
    forall|i: int, j: int| 0 <= i < j < s.len() ==> (#[trigger] s[i]).key != (#[trigger] s[j]).key
}

/// Index of the entry stored under `key`, if any.
pub open spec fn find_key<V>(s: Seq<SpecCacheEntry<V>>, key: CacheKey) -> Option<int> {
    if exists|i: int| 0 <= i < s.len() && (#[trigger] s[i]).key == key {
        Some(choose|i: int| 0 <= i < s.len() && (#[trigger] s[i]).key == key)
    } else {
        None
    }
}

/// Stores an entry: in place of the entry of the same key, or at the end.
pub open spec fn put<V>(s: Seq<SpecCacheEntry<V>>, e: SpecCacheEntry<V>) -> Seq<SpecCacheEntry<V>> {
    match find_key(s, e.key) {
        Some(i) => s.update(i, e),
        None => s.push(e),
    }
}

/// The entry's value is a clone of what `compute` gave for a context of the
/// entry's key.
pub open spec fn computed_by<V: Clone, F: Fn(&MatchContext) -> V>(compute: F, e: SpecCacheEntry<V>) -> bool {
    exists|c: MatchContext, v: V|
        #![trigger call_ensures(compute, (&c,), v), cloned::<V>(v, e.styles)]
        cache_key(c@) == e.key && call_ensures(compute, (&c,), v) && cloned::<V>(v, e.styles)
}

/// `compute` gives one answer for all contexts of one cache key, as a
/// function of the declarations that match a context does.
pub open spec fn answers_by_key<V, F: Fn(&MatchContext) -> V>(compute: F) -> bool {
    forall|c1: MatchContext, c2: MatchContext, v1: V, v2: V|
        #![trigger call_ensures(compute, (&c1,), v1), call_ensures(compute, (&c2,), v2)]
        cache_key(c1@) == cache_key(c2@) && call_ensures(compute, (&c1,), v1) && call_ensures(compute, (&c2,), v2)
            ==> v1 == v2
}

/// Cloning a `V` gives back an equal value.
pub open spec fn clone_keeps<V: Clone>() -> bool {
    forall|a: V, b: V| #[trigger] cloned::<V>(a, b) ==> a == b
}

impl<V: Clone, F: Fn(&MatchContext) -> V> StyleCache<V, F> {
    /// The cached entries, oldest first.
    pub closed spec fn entries(&self) -> Seq<SpecCacheEntry<V>> {
        self.entries@.map_values(|e: (Key, CacheEntry<V>)| SpecCacheEntry {
            key: key_view(e.0),
            styles: e.1.styles,
            generation: e.1.generation,
        })
    }

    /// The current generation.
    pub closed spec fn generation(&self) -> u64 {
        self.generation
    }

    /// How many entries the cache holds at most.
    pub closed spec fn capacity(&self) -> nat {
        self.max_entries as nat
    }

    /// The function that computes a value the cache does not hold.
    pub closed spec fn compute_fn(&self) -> F {
        self.compute
    }

    /// The cache is consistent: distinct keys, within capacity, no entry
    /// newer than the current generation, every entry computed by the
    /// cache's function, which accepts every context.
    pub open spec fn wf(&self) -> bool {
        &&& keys_distinct(self.entries())
        &&& self.entries().len() <= self.capacity()
        &&& self.capacity() >= 1
        &&& forall|i: int| 0 <= i < self.entries().len() ==> (#[trigger] self.entries()[i]).generation <= self.generation()
        &&& forall|i: int| 0 <= i < self.entries().len() ==> computed_by(self.compute_fn(), #[trigger] self.entries()[i])
        &&& forall|c: MatchContext| #[trigger] call_requires(self.compute_fn(), (&c,))
    }

    /// The value cached for a context, if it is current.
    pub open spec fn lookup(&self, ctx: SpecContext) -> Option<V> {
        match find_key(self.entries(), cache_key(ctx)) {
            Some(i) => if self.entries()[i].generation == self.generation() {
                Some(self.entries()[i].styles)
            } else {
                None
            },
            None => None,
        }
    }

    /// An empty cache of 1000 entries at most, whose values `compute` gives.
    pub fn new(compute: F) -> (r: Self)
        requires
            forall|c: MatchContext| #[trigger] call_requires(compute, (&c,)),
        ensures
            r.wf(),
            r.entries() == Seq::<SpecCacheEntry<V>>::empty(),
            r.generation() == 0,
            r.capacity() == 1000,
            r.compute_fn() == compute,
    {
        let r = StyleCache { entries: Vec::new(), generation: 0, max_entries: 1000, compute };
        proof {
            assert(r.entries() =~= Seq::<SpecCacheEntry<V>>::empty());
        }
        r
    }

    /// The current generation.
    pub fn current_generation(&self) -> (r: u64)
        ensures
            r == self.generation(),
    {
        self.generation
    }

    /// Starts a new generation: every entry cached so far becomes stale.
    pub fn invalidate(&mut self)
        requires
            old(self).wf(),
            old(self).generation() < u64::MAX,
        ensures
            final(self).wf(),
            final(self).entries() == old(self).entries(),
            final(self).generation() == old(self).generation() + 1,
            final(self).capacity() == old(self).capacity(),
            final(self).compute_fn() == old(self).compute_fn(),
            forall|ctx: SpecContext| (#[trigger] final(self).lookup(ctx)) is None,
    {
        self.generation = self.generation + 1;
        proof {
            assert forall|c: MatchContext| #[trigger] call_requires(self.compute_fn(), (&c,)) by {
                assert(call_requires(old(self).compute_fn(), (&c,)));
            }
            assert forall|i: int| 0 <= i < self.entries().len() implies computed_by(self.compute_fn(), #[trigger] self.entries()[i]) by {
                assert(computed_by(old(self).compute_fn(), old(self).entries()[i]));
            }
            assert forall|ctx: SpecContext| (#[trigger] self.lookup(ctx)) is None by {
                match find_key(self.entries(), cache_key(ctx)) {
                    Some(i) => {
                        assert(self.entries()[i] == old(self).entries()[i]);
                    },
                    None => {},
                }
            }
        }
    }

    /// Drops every entry.
    pub fn clear(&mut self)
        requires
            old(self).wf(),
        ensures
            final(self).wf(),
            final(self).entries() == Seq::<SpecCacheEntry<V>>::empty(),
            final(self).generation() == old(self).generation(),
            final(self).capacity() == old(self).capacity(),
            final(self).compute_fn() == old(self).compute_fn(),
    {
        self.entries.clear();
        proof {
            assert forall|c: MatchContext| #[trigger] call_requires(self.compute_fn(), (&c,)) by {
                assert(call_requires(old(self).compute_fn(), (&c,)));
            }
            assert(self.entries() =~= Seq::<SpecCacheEntry<V>>::empty());
        }
    }

    fn find(&self, key: &Key) -> (r: Option<usize>)
        requires
            self.wf(),
        ensures
            r matches Some(i) ==> find_key(self.entries(), key_view(*key)) == Some(i as int)
                && i < self.entries().len(),
            r is None ==> find_key(self.entries(), key_view(*key)) is None,
    {
        let ghost k = key_view(*key);
        let mut i: usize = 0;
        while i < self.entries.len()
            invariant
                i <= self.entries.len(),
                self.wf(),
                self.entries().len() == self.entries@.len(),
                k == key_view(*key),
                forall|j: int| 0 <= j < i ==> (#[trigger] self.entries()[j]).key != k,
            decreases self.entries.len() - i,
        {
            proof {
                assert(self.entries()[i as int].key == key_view(self.entries@[i as int].0));
            }
            if same_key(&self.entries[i].0, key) {
                proof {
                    assert(self.entries()[i as int].key == k);
                    let m = choose|m: int| 0 <= m < self.entries().len() && (#[trigger] self.entries()[m]).key == k;
                    if m != i {
                        if m < i {
                            assert(self.entries()[m].key != k);
                        } else {
                            assert(self.entries()[i as int].key != self.entries()[m].key);
                        }
                    }
                }
                return Some(i);
            }
            i = i + 1;
        }
        proof {
            assert(!(exists|m: int| 0 <= m < self.entries().len() && (#[trigger] self.entries()[m]).key == k));
        }
        None
    }

    /// The styles for a context: the cached value if it is current, or else
    /// what the cache's function computes for the context, which is then
    /// cached (dropping the oldest entry when the cache is full).
    pub fn get_or_compute(&mut self, context: &MatchContext) -> (r: V)
        requires
            old(self).wf(),
        ensures
            final(self).wf(),
            final(self).generation() == old(self).generation(),
            final(self).capacity() == old(self).capacity(),
            final(self).compute_fn() == old(self).compute_fn(),
            match old(self).lookup(context@) {
                Some(v) => final(self).entries() == old(self).entries() && cloned::<V>(v, r),
                None => call_ensures(old(self).compute_fn(), (context,), r) && exists|s: V| {
                    &&& cloned::<V>(r, s)
                    &&& final(self).lookup(context@) == Some(s)
                    &&& final(self).entries() == put(
                        if old(self).entries().len() >= old(self).capacity() {
                            old(self).entries().drop_first()
                        } else {
                            old(self).entries()
                        },
                        SpecCacheEntry { key: cache_key(context@), styles: s, generation: old(self).generation() },
                    )
                },
            },
    {
        let key = make_key(context);
        match self.find(&key) {
            Some(i) => {
                if self.entries[i].1.generation == self.generation {
                    proof {
                        assert(self.entries()[i as int].styles == self.entries@[i as int].1.styles);
                    }
                    return self.entries[i].1.styles.clone();
                }
            },
            None => {},
        }
        proof {
            assert(old(self).lookup(context@) is None);
            assert(call_requires(self.compute, (&*context,)));
        }
        let styles = (self.compute)(context);
        let ghost f = self.compute;
        if self.entries.len() >= self.max_entries {
            self.entries.remove(0);
            proof {
                assert(self.entries() =~= old(self).entries().drop_first());
                assert forall|a: int, b: int| 0 <= a < b < self.entries().len()
                    implies (#[trigger] self.entries()[a]).key != (#[trigger] self.entries()[b]).key by {
                    assert(old(self).entries()[a + 1].key != old(self).entries()[b + 1].key);
                }
                assert forall|a: int| 0 <= a < self.entries().len()
                    implies computed_by(f, #[trigger] self.entries()[a]) by {
                    assert(self.entries()[a] == old(self).entries()[a + 1]);
                }
            }
        }
        let ghost mid = self.entries();
        let stored = styles.clone();
        let ghost kv = key_view(key);
        let ghost mut at: int = 0;
        let ghost new_entry = SpecCacheEntry { key: kv, styles: stored, generation: self.generation };
        proof {
            assert(cloned::<V>(styles, stored));
            assert(call_ensures(f, (&*context,), styles));
            let c: MatchContext = *context;
            assert(cache_key(c@) == new_entry.key);
            assert(call_ensures(f, (&c,), styles));
            assert(cloned::<V>(styles, new_entry.styles));
            assert(computed_by(f, new_entry));
        }
        match self.find(&key) {
            Some(j) => {
                self.entries.set(j, (key, CacheEntry { styles: stored, generation: self.generation }));
                proof {
                    at = j as int;
                    assert(self.entries() =~= mid.update(j as int, new_entry));
                    assert forall|a: int, b: int| 0 <= a < b < self.entries().len()
                        implies (#[trigger] self.entries()[a]).key != (#[trigger] self.entries()[b]).key by {
                        assert(self.entries()[a].key == mid[a].key);
                        assert(self.entries()[b].key == mid[b].key);
                        assert(mid[a].key != mid[b].key);
                    }
                    assert forall|a: int| 0 <= a < self.entries().len()
                        implies computed_by(f, #[trigger] self.entries()[a]) by {
                        if a != j {
                            assert(self.entries()[a] == mid[a]);
                        }
                    }
                }
            },
            None => {
                self.entries.push((key, CacheEntry { styles: stored, generation: self.generation }));
                proof {
                    at = self.entries().len() - 1;
                    assert(self.entries() =~= mid.push(new_entry));
                    assert forall|a: int, b: int| 0 <= a < b < self.entries().len()
                        implies (#[trigger] self.entries()[a]).key != (#[trigger] self.entries()[b]).key by {
                        if b == self.entries().len() - 1 {
                            assert(self.entries()[a] == mid[a]);
                        } else {
                            assert(mid[a].key != mid[b].key);
                        }
                    }
                    assert forall|a: int| 0 <= a < self.entries().len()
                        implies computed_by(f, #[trigger] self.entries()[a]) by {
                        if a < mid.len() {
                            assert(self.entries()[a] == mid[a]);
                        }
                    }
                }
            },
        }
        proof {
            let es = self.entries();
            let k = cache_key(context@);
            let idx = at;
            assert(0 <= idx < es.len() && es[idx].key == k && es[idx].styles == stored && es[idx].generation == self.generation());
            assert(find_key(es, k) == Some(idx)) by {
                let c = choose|m: int| 0 <= m < es.len() && (#[trigger] es[m]).key == k;
                if c != idx {
                    if c < idx {
                        assert(es[c].key != es[idx].key);
                    } else {
                        assert(es[idx].key != es[c].key);
                    }
                }
            }
            assert(self.lookup(context@) == Some(stored));
        }
        styles
    }
}

/// A current cached value is what the cache's function computes for the
/// context: when that function gives one answer for all contexts of one
/// cache key (as a function of the matched declarations does, by
/// `lemma_same_key_same_declarations`) and cloning keeps a value, the cache
/// answers as a fresh computation would.
pub proof fn lemma_cached_is_computed<V: Clone, F: Fn(&MatchContext) -> V>(
    cache: StyleCache<V, F>,
    context: MatchContext,
    fresh: V,
)
    requires
        cache.wf(),
        cache.lookup(context@) is Some,
        call_ensures(cache.compute_fn(), (&context,), fresh),
        answers_by_key(cache.compute_fn()),
        clone_keeps::<V>(),
    ensures
        cache.lookup(context@) == Some(fresh),
{
    let es = cache.entries();
    let i = find_key(es, cache_key(context@)).unwrap();
    assert(0 <= i < es.len() && es[i].key == cache_key(context@));
    assert(computed_by(cache.compute_fn(), es[i]));
    let (c, v) = choose|c: MatchContext, v: V|
        cache_key(c@) == es[i].key && call_ensures(cache.compute_fn(), (&c,), v) && cloned::<V>(v, es[i].styles);
    assert(v == es[i].styles);
    assert(v == fresh);
}

/// `compute` reads a context only through the declarations that `sheets`
/// give it: contexts that receive the same declarations get the same
/// answer. This is what computing styles from a fixed set of style sheets
/// does.
pub open spec fn reads_declarations<V, F: Fn(&MatchContext) -> V>(compute: F, sheets: Seq<Seq<SpecRule>>) -> bool {
    forall|c1: MatchContext, c2: MatchContext, v1: V, v2: V|
        #![trigger call_ensures(compute, (&c1,), v1), call_ensures(compute, (&c2,), v2)]
        files_entries(sheets, c1@) == files_entries(sheets, c2@) && call_ensures(compute, (&c1,), v1)
            && call_ensures(compute, (&c2,), v2) ==> v1 == v2
}

/// A function of the declarations of fixed style sheets gives one answer per
/// cache key.
pub proof fn lemma_declarations_answer_by_key<V, F: Fn(&MatchContext) -> V>(compute: F, sheets: Seq<Seq<SpecRule>>)
    requires
        reads_declarations(compute, sheets),
    ensures
        answers_by_key(compute),
{
    assert forall|c1: MatchContext, c2: MatchContext, v1: V, v2: V|
        #![trigger call_ensures(compute, (&c1,), v1), call_ensures(compute, (&c2,), v2)]
        cache_key(c1@) == cache_key(c2@) && call_ensures(compute, (&c1,), v1) && call_ensures(compute, (&c2,), v2)
        implies v1 == v2 by {
        lemma_same_key_same_declarations(sheets, c1@, c2@);
    }
}

/// While the style sheets stay as they are, a current cached style is what
/// a fresh computation from them gives: the cache's function computes from
/// the declarations the sheets give a context, and cloning keeps a value.
pub proof fn lemma_cached_is_fresh_while_sheets_unchanged<V: Clone, F: Fn(&MatchContext) -> V>(
    cache: StyleCache<V, F>,
    sheets: Seq<Seq<SpecRule>>,
    context: MatchContext,
    fresh: V,
)
    requires
        cache.wf(),
        cache.lookup(context@) is Some,
        call_ensures(cache.compute_fn(), (&context,), fresh),
        reads_declarations(cache.compute_fn(), sheets),
        clone_keeps::<V>(),
    ensures
        cache.lookup(context@) == Some(fresh),
{
    lemma_declarations_answer_by_key(cache.compute_fn(), sheets);
    lemma_cached_is_computed(cache, context, fresh);
}

} // verus!

//! CSS selectors and selector matching.
//!
//! Type selectors (`Button`), classes (`.primary`), ids (`#main`), the
//! universal selector (`*`), pseudo-classes (`:hover`), descendant and child
//! combinators, and compound selectors (`Button.primary`).
use vstd::prelude::*;
use crate::text::{chars_of, eq_ignore_ascii_case, eq_ignore_ascii_case_spec, string_of};

verus! {

/// A CSS selector.
#[derive(Debug)]
pub enum Selector {
    /// Type selector: `Button`, `Card`, `Sidebar`.
    Type(String),
    /// Class selector: `.primary`, `.large`.
    Class(String),
    /// Id selector: `#main`, `#header`.
    Id(String),
    /// Universal selector: `*`.
    Universal,
    /// Pseudo-class: `:hover`, `:active`.
    PseudoClass(String),
    /// Descendant combinator: `A B`.
    Descendant(Box<Selector>, Box<Selector>),
    /// Child combinator: `A > B`.
    Child(Box<Selector>, Box<Selector>),
    /// Both at once: `A.B` (type and class).
    And(Box<Selector>, Box<Selector>),
}

/// The mathematical model of a selector.
pub enum SpecSelector {
    Type(Seq<char>),
    Class(Seq<char>),
    Id(Seq<char>),
    Universal,
    PseudoClass(Seq<char>),
    Descendant(Box<SpecSelector>, Box<SpecSelector>),
    Child(Box<SpecSelector>, Box<SpecSelector>),
    And(Box<SpecSelector>, Box<SpecSelector>),
}

pub open spec fn selector_view(s: Selector) -> SpecSelector
    decreases s,
{
    match s {
        Selector::Type(n) => SpecSelector::Type(n@),
        Selector::Class(n) => SpecSelector::Class(n@),
        Selector::Id(n) => SpecSelector::Id(n@),
        Selector::Universal => SpecSelector::Universal,
        Selector::PseudoClass(n) => SpecSelector::PseudoClass(n@),
        Selector::Descendant(a, b) => SpecSelector::Descendant(
            Box::new(selector_view(*a)),
            Box::new(selector_view(*b)),
        ),
        Selector::Child(a, b) => SpecSelector::Child(
            Box::new(selector_view(*a)),
            Box::new(selector_view(*b)),
        ),
        Selector::And(a, b) => SpecSelector::And(
            Box::new(selector_view(*a)),
            Box::new(selector_view(*b)),
        ),
    }
}

impl Clone for Selector {
    fn clone(&self) -> (r: Self)
        ensures
            r@ == self@,
        decreases self,
    {
        match self {
            Selector::Type(n) => Selector::Type(n.clone()),
            Selector::Class(n) => Selector::Class(n.clone()),
            Selector::Id(n) => Selector::Id(n.clone()),
            Selector::Universal => Selector::Universal,
            Selector::PseudoClass(n) => Selector::PseudoClass(n.clone()),
            Selector::Descendant(a, b) => Selector::Descendant(Box::new((**a).clone()), Box::new((**b).clone())),
            Selector::Child(a, b) => Selector::Child(Box::new((**a).clone()), Box::new((**b).clone())),
            Selector::And(a, b) => Selector::And(Box::new((**a).clone()), Box::new((**b).clone())),
        }
    }
}

/// The model of a compound selector is built from the models of its parts.
pub proof fn lemma_and_view(a: Selector, b: Selector)
    ensures
        Selector::And(Box::new(a), Box::new(b))@ == SpecSelector::And(Box::new(a@), Box::new(b@)),
{
    assert(selector_view(Selector::And(Box::new(a), Box::new(b))) == SpecSelector::And(
        Box::new(selector_view(a)),
        Box::new(selector_view(b)),
    ));
}

impl View for Selector {
    type V = SpecSelector;

    open spec fn view(&self) -> SpecSelector {
        selector_view(*self)
    }
}

/// A selector written back in CSS syntax.
pub open spec fn selector_text(s: SpecSelector) -> Seq<char>
    decreases s,
{
    match s {
        SpecSelector::Type(n) => n,
        SpecSelector::Class(n) => seq!['.'] + n,
        SpecSelector::Id(n) => seq!['#'] + n,
        SpecSelector::Universal => seq!['*'],
        SpecSelector::PseudoClass(n) => seq![':'] + n,
        SpecSelector::Descendant(a, b) => selector_text(*a) + seq![' '] + selector_text(*b),
        SpecSelector::Child(a, b) => selector_text(*a) + seq![' ', '>', ' '] + selector_text(*b),
        SpecSelector::And(a, b) => selector_text(*a) + selector_text(*b),
    }
}

fn push_str_chars(out: &mut Vec<char>, s: &str)
    ensures
        final(out)@ == old(out)@ + s@,
{
    let mut cs = chars_of(s);
    out.append(&mut cs);
}

fn write_selector(sel: &Selector, out: &mut Vec<char>)
    ensures
        final(out)@ == old(out)@ + selector_text(sel@),
    decreases sel,
{
    match sel {
        Selector::Type(n) => push_str_chars(out, n.as_str()),
        Selector::Class(n) => {
            out.push('.');
            push_str_chars(out, n.as_str());
        },
        Selector::Id(n) => {
            out.push('#');
            push_str_chars(out, n.as_str());
        },
        Selector::Universal => out.push('*'),
        Selector::PseudoClass(n) => {
            out.push(':');
            push_str_chars(out, n.as_str());
        },
        Selector::Descendant(a, b) => {
            write_selector(a, out);
            out.push(' ');
            write_selector(b, out);
        },
        Selector::Child(a, b) => {
            write_selector(a, out);
            out.push(' ');
            out.push('>');
            out.push(' ');
            write_selector(b, out);
        },
        Selector::And(a, b) => {
            write_selector(a, out);
            write_selector(b, out);
        },
    }
    proof {
        assert(final(out)@ =~= old(out)@ + selector_text(sel@));
    }
}

impl Selector {
    /// The selector in CSS syntax: `Button`, `.primary`, `#main`, `*`,
    /// `:hover`, `A B`, `A > B`, `Button.primary`.
    pub fn to_css(&self) -> (r: String)
        ensures
            r@ == selector_text(self@),
    {
        let mut out: Vec<char> = Vec::new();
        write_selector(self, &mut out);
        proof {
            assert(out@ =~= selector_text(self@));
        }
        string_of(&out)
    }
}

/// The attributes of a widget that selectors are matched against.
#[derive(Debug, Clone)]
pub struct MatchContext {
    /// Widget type: `"Button"`, `"Card"`, `"Sidebar"`.
    pub widget_type: String,
    /// CSS classes of the widget: `["primary", "large"]`.
    pub classes: Vec<String>,
    /// Id of the widget, if any.
    pub id: Option<String>,
    /// Active pseudo-classes: `["hover"]`, `["active"]`.
    pub pseudo: Vec<String>,
}

/// The mathematical model of a match context.
pub struct SpecContext {
    pub widget_type: Seq<char>,
    pub classes: Seq<Seq<char>>,
    pub id: Option<Seq<char>>,
    pub pseudo: Seq<Seq<char>>,
}

pub open spec fn strings_view(v: Seq<String>) -> Seq<Seq<char>> {
    v.map_values(|s: String| s@)
}

pub open spec fn opt_string_view(o: Option<String>) -> Option<Seq<char>> {
    match o {
        Some(s) => Some(s@),
        None => None,
    }
}

impl View for MatchContext {
    type V = SpecContext;

    open spec fn view(&self) -> SpecContext {
        SpecContext {
            widget_type: self.widget_type@,
            classes: strings_view(self.classes@),
            id: opt_string_view(self.id),
            pseudo: strings_view(self.pseudo@),
        }
    }
}

fn string_from(s: &str) -> (r: String)
    ensures
        r@ == s@,
{
    String::from_str(s)
}

impl MatchContext {
    pub fn new(widget_type: &str) -> (r: Self)
        ensures
            r@.widget_type == widget_type@,
            r@.classes == Seq::<Seq<char>>::empty(),
            r@.id is None,
            r@.pseudo == Seq::<Seq<char>>::empty(),
    {
        let r = MatchContext {
            widget_type: string_from(widget_type),
            classes: Vec::new(),
            id: None,
            pseudo: Vec::new(),
        };
        proof {
            assert(r@.classes =~= Seq::<Seq<char>>::empty());
            assert(r@.pseudo =~= Seq::<Seq<char>>::empty());
        }
        r
    }

    /// Adds a class.
    pub fn class(self, name: &str) -> (r: Self)
        ensures
            r@ == (SpecContext { classes: self@.classes.push(name@), ..self@ }),
    {
        let mut s = self;
        let ghost before = s.classes@;
        s.classes.push(string_from(name));
        proof {
            assert(strings_view(s.classes@) =~= strings_view(before).push(name@));
        }
        s
    }

    /// Sets the id.
    pub fn id(self, name: &str) -> (r: Self)
        ensures
            r@ == (SpecContext { id: Some(name@), ..self@ }),
    {
        let mut s = self;
        s.id = Some(string_from(name));
        s
    }

    fn with_pseudo(self, name: &str) -> (r: Self)
        ensures
            r@ == (SpecContext { pseudo: self@.pseudo.push(name@), ..self@ }),
    {
        let mut s = self;
        let ghost before = s.pseudo@;
        s.pseudo.push(string_from(name));
        proof {
            assert(strings_view(s.pseudo@) =~= strings_view(before).push(name@));
        }
        s
    }

    /// Marks the widget as hovered.
    pub fn hover(self) -> (r: Self)
        ensures
            r@ == (SpecContext { pseudo: self@.pseudo.push(seq!['h', 'o', 'v', 'e', 'r']), ..self@ }),
    {
        proof {
            reveal_strlit("hover");
            assert("hover"@ =~= seq!['h', 'o', 'v', 'e', 'r']);
        }
        self.with_pseudo("hover")
    }

    /// Marks the widget as active (pressed).
    pub fn active(self) -> (r: Self)
        ensures
            r@ == (SpecContext { pseudo: self@.pseudo.push(seq!['a', 'c', 't', 'i', 'v', 'e']), ..self@ }),
    {
        proof {
            reveal_strlit("active");
            assert("active"@ =~= seq!['a', 'c', 't', 'i', 'v', 'e']);
        }
        self.with_pseudo("active")
    }

    /// Marks the widget as focused.
    pub fn focus(self) -> (r: Self)
        ensures
            r@ == (SpecContext { pseudo: self@.pseudo.push(seq!['f', 'o', 'c', 'u', 's']), ..self@ }),
    {
        proof {
            reveal_strlit("focus");
            assert("focus"@ =~= seq!['f', 'o', 'c', 'u', 's']);
        }
        self.with_pseudo("focus")
    }
}

/// The outcome of matching a selector.
#[derive(Debug, Clone, Copy, PartialEq, Eq, Structural)]
pub enum MatchResult {
    Match,
    NoMatch,
}

/// Whether a selector applies to a context. Combinators are judged by
/// their rightmost part alone: a context carries no parent to check the
/// left part against.
pub open spec fn selector_matches(sel: SpecSelector, ctx: SpecContext) -> bool
    decreases sel,
{
    match sel {
        SpecSelector::Universal => true,
        SpecSelector::Type(n) => eq_ignore_ascii_case_spec(n, ctx.widget_type),
        SpecSelector::Class(n) => ctx.classes.contains(n),
        SpecSelector::Id(n) => ctx.id == Some(n),
        SpecSelector::PseudoClass(n) => ctx.pseudo.contains(n),
        SpecSelector::And(a, b) => selector_matches(*a, ctx) && selector_matches(*b, ctx),
        SpecSelector::Descendant(_, b) => selector_matches(*b, ctx),
        SpecSelector::Child(_, b) => selector_matches(*b, ctx),
    }
}

fn contains_string(v: &Vec<String>, name: &String) -> (r: bool)
    ensures
        r == strings_view(v@).contains(name@),
{
    let mut i: usize = 0;
    while i < v.len()
        invariant
            i <= v.len(),
            forall|j: int| 0 <= j < i ==> v@[j]@ != name@,
        decreases v.len() - i,
    {
        if v[i] == *name {
            proof {
                assert(strings_view(v@)[i as int] == name@);
            }
            return true;
        }
        i = i + 1;
    }
    proof {
        if strings_view(v@).contains(name@) {
            let j = choose|j: int| 0 <= j < strings_view(v@).len() && strings_view(v@)[j] == name@;
            assert(v@[j]@ == name@);
        }
    }
    false
}

/// Whether a selector applies to a context.
pub fn match_selector(selector: &Selector, context: &MatchContext) -> (r: MatchResult)
    ensures
        (r == MatchResult::Match) == selector_matches(selector@, context@),
    decreases selector, 1nat,
{
    match selector {
        Selector::Universal => MatchResult::Match,
        Selector::Type(name) => {
            if eq_ignore_ascii_case(name.as_str(), context.widget_type.as_str()) {
                MatchResult::Match
            } else {
                MatchResult::NoMatch
            }
        },
        Selector::Class(name) => {
            if contains_string(&context.classes, name) {
                MatchResult::Match
            } else {
                MatchResult::NoMatch
            }
        },
        Selector::Id(name) => {
            match &context.id {
                Some(id) => {
                    if *id == *name {
                        MatchResult::Match
                    } else {
                        MatchResult::NoMatch
                    }
                },
                None => MatchResult::NoMatch,
            }
        },
        Selector::PseudoClass(name) => {
            if contains_string(&context.pseudo, name) {
                MatchResult::Match
            } else {
                MatchResult::NoMatch
            }
        },
        Selector::And(a, b) => {
            match match_selector(a, context) {
                MatchResult::NoMatch => MatchResult::NoMatch,
                _ => match_selector(b, context),
            }
        },
        Selector::Descendant(..) | Selector::Child(..) => match_rightmost(selector, context),
    }
}

fn match_rightmost(selector: &Selector, context: &MatchContext) -> (r: MatchResult)
    requires
        selector is Descendant || selector is Child,
    ensures
        (r == MatchResult::Match) == selector_matches(selector@, context@),
    decreases selector, 0nat,
{
    match selector {
        Selector::Descendant(_, right) | Selector::Child(_, right) => match_selector(right, context),
        other => match_selector(other, context),
    }
}

/// Specificity of a selector: ids count 100, classes and pseudo-classes 10,
/// types 1; compound selectors and combinators add up their parts.
pub open spec fn specificity_spec(sel: SpecSelector) -> int
    decreases sel,
{
    match sel {
        SpecSelector::Id(_) => 100,
        SpecSelector::Class(_) => 10,
        SpecSelector::PseudoClass(_) => 10,
        SpecSelector::Type(_) => 1,
        SpecSelector::Universal => 0,
        SpecSelector::And(a, b) => specificity_spec(*a) + specificity_spec(*b),
        SpecSelector::Descendant(a, b) => specificity_spec(*a) + specificity_spec(*b),
        SpecSelector::Child(a, b) => specificity_spec(*a) + specificity_spec(*b),
    }
}

/// An id selector outranks any class or pseudo-class selector, which
/// outranks any type selector, which outranks the universal selector.
pub proof fn lemma_specificity_ranks(id: Seq<char>, class: Seq<char>, pseudo: Seq<char>, ty: Seq<char>)
    ensures
        specificity_spec(SpecSelector::Id(id)) > specificity_spec(SpecSelector::Class(class)),
        specificity_spec(SpecSelector::Class(class)) == specificity_spec(SpecSelector::PseudoClass(pseudo)),
        specificity_spec(SpecSelector::Class(class)) > specificity_spec(SpecSelector::Type(ty)),
        specificity_spec(SpecSelector::Type(ty)) > specificity_spec(SpecSelector::Universal),
{
}

/// A compound selector `A.B` applies exactly when both of its parts apply,
/// and its specificity is the sum of theirs.
pub proof fn lemma_and_matches(a: Selector, b: Selector, ctx: SpecContext)
    ensures
        selector_matches(Selector::And(Box::new(a), Box::new(b))@, ctx) == (selector_matches(a@, ctx) && selector_matches(b@, ctx)),
        specificity_spec(Selector::And(Box::new(a), Box::new(b))@) == specificity_spec(a@) + specificity_spec(b@),
{
    lemma_and_view(a, b);
}

pub proof fn lemma_specificity_nonneg(sel: SpecSelector)
    ensures
        specificity_spec(sel) >= 0,
    decreases sel,
{
    match sel {
        SpecSelector::And(a, b) => {
            lemma_specificity_nonneg(*a);
            lemma_specificity_nonneg(*b);
        },
        SpecSelector::Descendant(a, b) => {
            lemma_specificity_nonneg(*a);
            lemma_specificity_nonneg(*b);
        },
        SpecSelector::Child(a, b) => {
            lemma_specificity_nonneg(*a);
            lemma_specificity_nonneg(*b);
        },
        _ => {},
    }
}

/// Specificity of a selector. The sum must fit in a `u32`.
pub fn specificity(selector: &Selector) -> (r: u32)
    requires
        specificity_spec(selector@) <= u32::MAX,
    ensures
        r == specificity_spec(selector@),
    decreases selector,
{
    proof {
        lemma_specificity_nonneg(selector@);
    }
    match selector {
        Selector::Id(_) => 100,
        Selector::Class(_) | Selector::PseudoClass(_) => 10,
        Selector::Type(_) => 1,
        Selector::Universal => 0,
        Selector::And(a, b) | Selector::Descendant(a, b) | Selector::Child(a, b) => {
            proof {
                lemma_specificity_nonneg(a@);
                lemma_specificity_nonneg(b@);
            }
            specificity(a) + specificity(b)
        },
    }
}

/// The selector list's specificities all fit in a `u32`.
pub open spec fn specificities_fit(sels: Seq<Selector>) -> bool {
    forall|i: int| 0 <= i < sels.len() ==> specificity_spec(#[trigger] sels[i]@) <= u32::MAX
}

/// The best selector of a list for a context: among the matching
/// selectors, the first of highest specificity.
pub fn find_best_match<'a>(selectors: &'a [Selector], context: &MatchContext) -> (r: Option<(usize, &'a Selector)>)
    requires
        specificities_fit(selectors@),
    ensures
        r is None <==> !(exists|j: int| 0 <= j < selectors@.len() && selector_matches(#[trigger] selectors@[j]@, context@)),
        r matches Some((i, s)) ==> {
            &&& i < selectors@.len()
            &&& *s == selectors@[i as int]
            &&& selector_matches(selectors@[i as int]@, context@)
            &&& forall|j: int| 0 <= j < selectors@.len() && selector_matches(#[trigger] selectors@[j]@, context@)
                ==> specificity_spec(selectors@[j]@) <= specificity_spec(selectors@[i as int]@)
            &&& forall|j: int| 0 <= j < i && selector_matches(#[trigger] selectors@[j]@, context@)
                ==> specificity_spec(selectors@[j]@) < specificity_spec(selectors@[i as int]@)
        },
{
    let mut best: Option<(usize, &'a Selector)> = None;
    let mut best_specificity: u32 = 0;
    let mut i: usize = 0;
    while i < selectors.len()
        invariant
            i <= selectors@.len(),
            specificities_fit(selectors@),
            best is None ==> forall|j: int| 0 <= j < i ==> !selector_matches(#[trigger] selectors@[j]@, context@),
            best matches Some((k, s)) ==> {
                &&& k < i
                &&& *s == selectors@[k as int]
                &&& selector_matches(selectors@[k as int]@, context@)
                &&& specificity_spec(selectors@[k as int]@) == best_specificity
                &&& forall|j: int| 0 <= j < i && selector_matches(#[trigger] selectors@[j]@, context@)
                    ==> specificity_spec(selectors@[j]@) <= best_specificity
                &&& forall|j: int| 0 <= j < k && selector_matches(#[trigger] selectors@[j]@, context@)
                    ==> specificity_spec(selectors@[j]@) < best_specificity
            },
        decreases selectors.len() - i,
    {
        let sel = &selectors[i];
        if match_selector(sel, context) == MatchResult::Match {
            proof {
                assert(specificity_spec(selectors@[i as int]@) <= u32::MAX);
                lemma_specificity_nonneg(selectors@[i as int]@);
            }
            let spec = specificity(sel);
            match best {
                None => {
                    best_specificity = spec;
                    best = Some((i, sel));
                },
                Some(_) => {
                    if spec > best_specificity {
                        best_specificity = spec;
                        best = Some((i, sel));
                    }
                },
            }
        }
        i = i + 1;
    }
    best
}

} // verus!

//! CSS parser: builds rules (selectors and declarations) from tokens.
use vstd::prelude::*;
use super::properties::{PropertyValue, SpecValue, values_view, value_view};
use super::selector::{Selector, SpecSelector, lemma_and_view};
use super::tokenizer::{SpecToken, Token, tokenize, tokenize_spec};
use crate::text::push_char;

verus! {

/// A complete CSS rule: selectors and declarations.
#[derive(Debug)]
pub struct Rule {
    pub selectors: Vec<Selector>,
    pub declarations: Vec<Declaration>,
}

/// A CSS declaration: property and value.
#[derive(Debug)]
pub struct Declaration {
    pub property: String,
    pub value: PropertyValue,
    pub important: bool,
}

/// A parsed style sheet.
#[derive(Debug)]
pub struct ParsedStylesheet {
    pub rules: Vec<Rule>,
}

pub struct SpecDecl {
    pub property: Seq<char>,
    pub value: SpecValue,
    pub important: bool,
}

pub struct SpecRule {
    pub selectors: Seq<SpecSelector>,
    pub declarations: Seq<SpecDecl>,
}

impl View for Declaration {
    type V = SpecDecl;

    open spec fn view(&self) -> SpecDecl {
        SpecDecl { property: self.property@, value: self.value@, important: self.important }
    }
}

impl View for Rule {
    type V = SpecRule;

    open spec fn view(&self) -> SpecRule {
        SpecRule {
            selectors: self.selectors@.map_values(|s: Selector| s@),
            declarations: self.declarations@.map_values(|d: Declaration| d@),
        }
    }
}

impl View for ParsedStylesheet {
    type V = Seq<SpecRule>;

    open spec fn view(&self) -> Seq<SpecRule> {
        self.rules@.map_values(|r: Rule| r@)
    }
}

// ── The grammar, over a token sequence and a position ───────────────────

pub open spec fn tok(ts: Seq<SpecToken>, p: int) -> Option<SpecToken> {
    if 0 <= p < ts.len() {
        Some(ts[p])
    } else {
        None
    }
}

/// The value parts of a declaration, up to `;`, `}`, `!` or the end.
pub open spec fn value_spec(ts: Seq<SpecToken>, p: int) -> (Seq<SpecValue>, int)
    decreases ts.len() - p,
{
    if p < 0 || p >= ts.len() {
        (Seq::empty(), p)
    } else {
        let rest = value_spec(ts, p + 1);
        match ts[p] {
            SpecToken::Semicolon => (Seq::empty(), p),
            SpecToken::RightBrace => (Seq::empty(), p),
            SpecToken::Delim(c) => if c == '!' {
                (Seq::empty(), p)
            } else {
                rest
            },
            SpecToken::Ident(s) => (seq![SpecValue::Keyword(s)] + rest.0, rest.1),
            SpecToken::Number(n) => (seq![SpecValue::Number(n)] + rest.0, rest.1),
            SpecToken::Dimension(n, u) => (seq![SpecValue::Dimension(n, u)] + rest.0, rest.1),
            SpecToken::Percentage(n) => (seq![SpecValue::Percentage(n)] + rest.0, rest.1),
            SpecToken::Hash(n) => (seq![SpecValue::Color(n)] + rest.0, rest.1),
            SpecToken::Str(s) => (seq![SpecValue::Str(s)] + rest.0, rest.1),
            SpecToken::Dot => (seq![SpecValue::Keyword(seq!['.'])] + rest.0, rest.1),
            SpecToken::Comma => (seq![SpecValue::Comma] + rest.0, rest.1),
            _ => rest,
        }
    }
}

/// One declaration `name: value [! ident]`, starting at an identifier.
pub open spec fn declaration_spec(ts: Seq<SpecToken>, p: int) -> (Option<SpecDecl>, int) {
    match tok(ts, p) {
        Some(SpecToken::Ident(name)) => {
            if tok(ts, p + 1) == Some(SpecToken::Colon) {
                let (parts, p2) = value_spec(ts, p + 2);
                if tok(ts, p2) == Some(SpecToken::Delim('!')) {
                    let p3 = if tok(ts, p2 + 1) is Some && tok(ts, p2 + 1)->0 is Ident {
                        p2 + 2
                    } else {
                        p2 + 1
                    };
                    (Some(SpecDecl { property: name, value: SpecValue::List(parts), important: true }), p3)
                } else {
                    (Some(SpecDecl { property: name, value: SpecValue::List(parts), important: false }), p2)
                }
            } else {
                (None, p + 1)
            }
        },
        _ => (None, p),
    }
}

/// The declarations of a block, up to its `}` or the end.
pub open spec fn declarations_spec(ts: Seq<SpecToken>, p: int) -> (Seq<SpecDecl>, int)
    decreases ts.len() - p,
{
    if p < 0 || p >= ts.len() {
        (Seq::empty(), p)
    } else {
        match ts[p] {
            SpecToken::RightBrace => (Seq::empty(), p),
            SpecToken::Semicolon => declarations_spec(ts, p + 1),
            SpecToken::Ident(_) => {
                let (d, p1) = declaration_spec(ts, p);
                let p2 = if tok(ts, p1) == Some(SpecToken::Semicolon) {
                    p1 + 1
                } else {
                    p1
                };
                if p2 <= p || p2 > ts.len() {
                    (Seq::empty(), p2)
                } else {
                    let rest = declarations_spec(ts, p2);
                    match d {
                        Some(x) => (seq![x] + rest.0, rest.1),
                        None => rest,
                    }
                }
            },
            _ => declarations_spec(ts, p + 1),
        }
    }
}

/// A simple selector: type, `.class`, `#id` or `*`.
pub open spec fn simple_spec(ts: Seq<SpecToken>, p: int) -> (Option<SpecSelector>, int) {
    match tok(ts, p) {
        Some(SpecToken::Ident(n)) => (Some(SpecSelector::Type(n)), p + 1),
        Some(SpecToken::Dot) => match tok(ts, p + 1) {
            Some(SpecToken::Ident(n)) => (Some(SpecSelector::Class(n)), p + 2),
            _ => (None, p + 1),
        },
        Some(SpecToken::Hash(n)) => (Some(SpecSelector::Id(n)), p + 1),
        Some(SpecToken::Delim(c)) => if c == '*' {
            (Some(SpecSelector::Universal), p + 1)
        } else {
            (None, p)
        },
        _ => (None, p),
    }
}

/// The `.class`, `#id` and `:pseudo` parts that follow a simple selector,
/// folded into `And` from the left.
pub open spec fn compound_spec(ts: Seq<SpecToken>, p: int, acc: SpecSelector) -> (Option<SpecSelector>, int)
    decreases ts.len() - p,
{
    if p < 0 || p >= ts.len() {
        (Some(acc), p)
    } else {
        match ts[p] {
            SpecToken::Dot => match tok(ts, p + 1) {
                Some(SpecToken::Ident(n)) => compound_spec(
                    ts,
                    p + 2,
                    SpecSelector::And(Box::new(acc), Box::new(SpecSelector::Class(n))),
                ),
                _ => (None, p + 1),
            },
            SpecToken::Hash(n) => compound_spec(
                ts,
                p + 1,
                SpecSelector::And(Box::new(acc), Box::new(SpecSelector::Id(n))),
            ),
            SpecToken::Colon => match tok(ts, p + 1) {
                Some(SpecToken::Ident(n)) => compound_spec(
                    ts,
                    p + 2,
                    SpecSelector::And(Box::new(acc), Box::new(SpecSelector::PseudoClass(n))),
                ),
                _ => (None, p + 1),
            },
            _ => (Some(acc), p),
        }
    }
}

pub open spec fn selector_spec(ts: Seq<SpecToken>, p: int) -> (Option<SpecSelector>, int) {
    let (s, p1) = simple_spec(ts, p);
    match s {
        Some(x) => compound_spec(ts, p1, x),
        None => (None, p1),
    }
}

/// A comma-separated list of selectors.
pub open spec fn selector_list_spec(ts: Seq<SpecToken>, p: int) -> (Option<Seq<SpecSelector>>, int)
    decreases ts.len() - p,
{
    let (s, p1) = selector_spec(ts, p);
    match s {
        None => (None, p1),
        Some(x) => if tok(ts, p1) == Some(SpecToken::Comma) && p1 >= p && p < ts.len() {
            let (rest, p2) = selector_list_spec(ts, p1 + 1);
            match rest {
                Some(r) => (Some(seq![x] + r), p2),
                None => (None, p2),
            }
        } else {
            (Some(seq![x]), p1)
        },
    }
}

/// Skips the inside of a block whose nesting depth is `depth`, through the
/// `}` that closes it.
pub open spec fn skip_block_spec(ts: Seq<SpecToken>, p: int, depth: nat) -> int
    decreases ts.len() - p,
{
    if p < 0 || p >= ts.len() {
        p
    } else {
        let d = match ts[p] {
            SpecToken::LeftBrace => depth + 1,
            SpecToken::RightBrace => if depth > 0 {
                (depth - 1) as nat
            } else {
                0
            },
            _ => depth,
        };
        if d == 0 {
            p + 1
        } else {
            skip_block_spec(ts, p + 1, d)
        }
    }
}

/// Skips an at-rule: through its `;`, or through its block.
pub open spec fn skip_at_rule_spec(ts: Seq<SpecToken>, p: int) -> int
    decreases ts.len() - p,
{
    if p < 0 || p >= ts.len() {
        p
    } else {
        match ts[p] {
            SpecToken::LeftBrace => skip_block_spec(ts, p + 1, 1),
            SpecToken::Semicolon => p + 1,
            _ => skip_at_rule_spec(ts, p + 1),
        }
    }
}

/// One rule. At-rules are skipped and give no rule.
pub open spec fn rule_spec(ts: Seq<SpecToken>, p: int) -> (Option<SpecRule>, int) {
    if tok(ts, p) is Some && tok(ts, p)->0 is AtKeyword {
        (None, skip_at_rule_spec(ts, p))
    } else {
        let (sl, p1) = selector_list_spec(ts, p);
        match sl {
            None => (None, p1),
            Some(sels) => if tok(ts, p1) == Some(SpecToken::LeftBrace) {
                let (ds, p2) = declarations_spec(ts, p1 + 1);
                let p3 = if tok(ts, p2) == Some(SpecToken::RightBrace) {
                    p2 + 1
                } else {
                    p2
                };
                if sels.len() == 0 {
                    (None, p3)
                } else {
                    (Some(SpecRule { selectors: sels, declarations: ds }), p3)
                }
            } else {
                (None, p1)
            },
        }
    }
}

/// The rules from position `p` on. When a rule cannot be read, one more
/// token is skipped and reading goes on.
pub open spec fn rules_spec(ts: Seq<SpecToken>, p: int) -> Seq<SpecRule>
    decreases ts.len() - p,
{
    if p < 0 || p >= ts.len() || ts[p] is Eof {
        Seq::empty()
    } else {
        let (r, p1) = rule_spec(ts, p);
        let next = match r {
            Some(_) => p1,
            None => if p1 < ts.len() {
                p1 + 1
            } else {
                p1
            },
        };
        if next <= p || next > ts.len() {
            Seq::empty()
        } else {
            match r {
                Some(x) => seq![x] + rules_spec(ts, next),
                None => rules_spec(ts, next),
            }
        }
    }
}

/// What a style sheet parses to.
pub open spec fn parse_stylesheet_spec(input: Seq<char>) -> Seq<SpecRule> {
    rules_spec(tokenize_spec(input), 0)
}

// ── Lemmas ──────────────────────────────────────────────────────────────

proof fn lemma_rules_have_selectors(ts: Seq<SpecToken>, p: int)
    ensures
        forall|i: int| 0 <= i < rules_spec(ts, p).len() ==> (#[trigger] rules_spec(ts, p)[i]).selectors.len() > 0,
    decreases ts.len() - p,
{
    if !(p < 0 || p >= ts.len() || ts[p] is Eof) {
        let (r, p1) = rule_spec(ts, p);
        let next = match r {
            Some(_) => p1,
            None => if p1 < ts.len() {
                p1 + 1
            } else {
                p1
            },
        };
        if !(next <= p || next > ts.len()) {
            lemma_rules_have_selectors(ts, next);
            let rest = rules_spec(ts, next);
            match r {
                Some(x) => {
                    assert(rules_spec(ts, p) == seq![x] + rest);
                    assert forall|i: int| 0 <= i < rules_spec(ts, p).len()
                        implies (#[trigger] rules_spec(ts, p)[i]).selectors.len() > 0 by {
                        if i > 0 {
                            assert(rules_spec(ts, p)[i] == rest[i - 1]);
                        }
                    }
                },
                None => {},
            }
        }
    }
}

/// Every rule of a parsed style sheet has at least one selector.
pub proof fn lemma_parsed_rules_have_selectors(input: Seq<char>)
    ensures
        forall|i: int| 0 <= i < parse_stylesheet_spec(input).len()
            ==> (#[trigger] parse_stylesheet_spec(input)[i]).selectors.len() > 0,
{
    lemma_rules_have_selectors(tokenize_spec(input), 0);
}

/// A declaration's value keeps the kind of each token it is read from: every
/// percentage, number, dimension and hash token of the value gives a
/// percentage, number, dimension and color part with the same text, and
/// every number or percentage part comes from a number or percentage token
/// (respectively) of the value, with the same text. So a percentage is never
/// read as a plain number, nor the other way round.
pub proof fn lemma_value_keeps_percentages(ts: Seq<SpecToken>, p: int)
    requires
        0 <= p <= ts.len(),
    ensures
        p <= value_spec(ts, p).1 <= ts.len(),
        forall|i: int| p <= i < value_spec(ts, p).1 && (#[trigger] ts[i]) is Percentage
            ==> value_spec(ts, p).0.contains(SpecValue::Percentage(ts[i]->Percentage_0)),
        forall|i: int| p <= i < value_spec(ts, p).1 && (#[trigger] ts[i]) is Number
            ==> value_spec(ts, p).0.contains(SpecValue::Number(ts[i]->Number_0)),
        forall|i: int| p <= i < value_spec(ts, p).1 && (#[trigger] ts[i]) is Dimension
            ==> value_spec(ts, p).0.contains(SpecValue::Dimension(ts[i]->Dimension_0, ts[i]->Dimension_1)),
        forall|i: int| p <= i < value_spec(ts, p).1 && (#[trigger] ts[i]) is Hash
            ==> value_spec(ts, p).0.contains(SpecValue::Color(ts[i]->Hash_0)),
        forall|j: int| 0 <= j < value_spec(ts, p).0.len() && (#[trigger] value_spec(ts, p).0[j]) is Number
            ==> exists|i: int| p <= i < value_spec(ts, p).1
                && ts[i] == SpecToken::Number(value_spec(ts, p).0[j]->Number_0),
        forall|j: int| 0 <= j < value_spec(ts, p).0.len() && (#[trigger] value_spec(ts, p).0[j]) is Percentage
            ==> exists|i: int| p <= i < value_spec(ts, p).1
                && ts[i] == SpecToken::Percentage(value_spec(ts, p).0[j]->Percentage_0),
    decreases ts.len() - p,
{
    lemma_value_spec_pos(ts, p);
    if p < ts.len() {
        lemma_value_keeps_percentages(ts, p + 1);
        let rest = value_spec(ts, p + 1);
        let out = value_spec(ts, p);
        match ts[p] {
            SpecToken::Semicolon => {},
            SpecToken::RightBrace => {},
            SpecToken::Delim(c) => {},
            SpecToken::Ident(x) => {
                lemma_cons_parts(SpecValue::Keyword(x), rest.0, ts, p, out);
            },
            SpecToken::Number(x) => {
                lemma_cons_parts(SpecValue::Number(x), rest.0, ts, p, out);
            },
            SpecToken::Dimension(x, u) => {
                lemma_cons_parts(SpecValue::Dimension(x, u), rest.0, ts, p, out);
            },
            SpecToken::Percentage(x) => {
                lemma_cons_parts(SpecValue::Percentage(x), rest.0, ts, p, out);
            },
            SpecToken::Hash(x) => {
                lemma_cons_parts(SpecValue::Color(x), rest.0, ts, p, out);
            },
            SpecToken::Str(x) => {
                lemma_cons_parts(SpecValue::Str(x), rest.0, ts, p, out);
            },
            SpecToken::Dot => {
                lemma_cons_parts(SpecValue::Keyword(seq!['.']), rest.0, ts, p, out);
            },
            SpecToken::Comma => {
                lemma_cons_parts(SpecValue::Comma, rest.0, ts, p, out);
            },
            _ => {},
        }
    }
}

/// A declaration `name: value` is important exactly when a `!` follows its
/// value; it keeps the name as its property and the value's parts as its
/// value.
pub proof fn lemma_declaration_important_iff_bang(ts: Seq<SpecToken>, p: int)
    requires
        0 <= p,
        p + 2 <= ts.len(),
        ts[p] is Ident,
        ts[p + 1] == SpecToken::Colon,
    ensures
        declaration_spec(ts, p).0 matches Some(d) && {
            &&& d.property == ts[p]->Ident_0
            &&& d.value == SpecValue::List(value_spec(ts, p + 2).0)
            &&& (d.important <==> tok(ts, value_spec(ts, p + 2).1) == Some(SpecToken::Delim('!')))
        },
{
}

proof fn lemma_cons_parts(v: SpecValue, rest: Seq<SpecValue>, ts: Seq<SpecToken>, p: int, out: (Seq<SpecValue>, int))
    requires
        out.0 == seq![v] + rest,
    ensures
        out.0[0] == v,
        forall|j: int| 0 < j < out.0.len() ==> out.0[j] == rest[j - 1],
        forall|x: SpecValue| rest.contains(x) ==> out.0.contains(x),
        out.0.contains(v),
{
    assert(out.0[0] == v);
    assert forall|x: SpecValue| rest.contains(x) implies out.0.contains(x) by {
        let k = choose|k: int| 0 <= k < rest.len() && rest[k] == x;
        assert(out.0[k + 1] == x);
    }
}

proof fn lemma_value_spec_pos(ts: Seq<SpecToken>, p: int)
    requires
        0 <= p <= ts.len(),
    ensures
        p <= value_spec(ts, p).1 <= ts.len(),
    decreases ts.len() - p,
{
    if p < ts.len() {
        lemma_value_spec_pos(ts, p + 1);
    }
}

proof fn lemma_declarations_spec_pos(ts: Seq<SpecToken>, p: int)
    requires
        0 <= p <= ts.len(),
    ensures
        p <= declarations_spec(ts, p).1 <= ts.len(),
    decreases ts.len() - p,
{
    if p < ts.len() {
        match ts[p] {
            SpecToken::RightBrace => {},
            SpecToken::Semicolon => lemma_declarations_spec_pos(ts, p + 1),
            SpecToken::Ident(_) => {
                lemma_declaration_spec_pos(ts, p);
                let (d, p1) = declaration_spec(ts, p);
                let p2 = if tok(ts, p1) == Some(SpecToken::Semicolon) {
                    p1 + 1
                } else {
                    p1
                };
                lemma_declarations_spec_pos(ts, p2);
            },
            _ => lemma_declarations_spec_pos(ts, p + 1),
        }
    }
}

proof fn lemma_declaration_spec_pos(ts: Seq<SpecToken>, p: int)
    requires
        0 <= p <= ts.len(),
    ensures
        p <= declaration_spec(ts, p).1 <= ts.len(),
        tok(ts, p) is Some && tok(ts, p)->0 is Ident ==> p < declaration_spec(ts, p).1,
{
    if tok(ts, p) is Some && tok(ts, p)->0 is Ident && tok(ts, p + 1) == Some(SpecToken::Colon) {
        lemma_value_spec_pos(ts, p + 2);
    }
}

proof fn lemma_compound_spec_pos(ts: Seq<SpecToken>, p: int, acc: SpecSelector)
    requires
        0 <= p <= ts.len(),
    ensures
        p <= compound_spec(ts, p, acc).1 <= ts.len(),
    decreases ts.len() - p,
{
    if p < ts.len() {
        match ts[p] {
            SpecToken::Dot => match tok(ts, p + 1) {
                Some(SpecToken::Ident(n)) => lemma_compound_spec_pos(
                    ts,
                    p + 2,
                    SpecSelector::And(Box::new(acc), Box::new(SpecSelector::Class(n))),
                ),
                _ => {},
            },
            SpecToken::Hash(n) => lemma_compound_spec_pos(
                ts,
                p + 1,
                SpecSelector::And(Box::new(acc), Box::new(SpecSelector::Id(n))),
            ),
            SpecToken::Colon => match tok(ts, p + 1) {
                Some(SpecToken::Ident(n)) => lemma_compound_spec_pos(
                    ts,
                    p + 2,
                    SpecSelector::And(Box::new(acc), Box::new(SpecSelector::PseudoClass(n))),
                ),
                _ => {},
            },
            _ => {},
        }
    }
}

proof fn lemma_selector_spec_pos(ts: Seq<SpecToken>, p: int)
    requires
        0 <= p <= ts.len(),
    ensures
        p <= selector_spec(ts, p).1 <= ts.len(),
        selector_spec(ts, p).0 is Some ==> p < selector_spec(ts, p).1,
{
    let (s, p1) = simple_spec(ts, p);
    if let Some(x) = s {
        lemma_compound_spec_pos(ts, p1, x);
    }
}

proof fn lemma_selector_list_spec_pos(ts: Seq<SpecToken>, p: int)
    requires
        0 <= p <= ts.len(),
    ensures
        p <= selector_list_spec(ts, p).1 <= ts.len(),
        selector_list_spec(ts, p).0 is Some ==> p < selector_list_spec(ts, p).1,
        selector_list_spec(ts, p).0 matches Some(l) ==> l.len() > 0,
    decreases ts.len() - p,
{
    lemma_selector_spec_pos(ts, p);
    let (s, p1) = selector_spec(ts, p);
    if s is Some && tok(ts, p1) == Some(SpecToken::Comma) && p1 >= p && p < ts.len() {
        lemma_selector_list_spec_pos(ts, p1 + 1);
    }
}

proof fn lemma_skip_block_spec_pos(ts: Seq<SpecToken>, p: int, depth: nat)
    requires
        0 <= p <= ts.len(),
    ensures
        p <= skip_block_spec(ts, p, depth) <= ts.len(),
    decreases ts.len() - p,
{
    if p < ts.len() {
        let d = match ts[p] {
            SpecToken::LeftBrace => depth + 1,
            SpecToken::RightBrace => if depth > 0 {
                (depth - 1) as nat
            } else {
                0
            },
            _ => depth,
        };
        if d != 0 {
            lemma_skip_block_spec_pos(ts, p + 1, d);
        }
    }
}

proof fn lemma_skip_at_rule_spec_pos(ts: Seq<SpecToken>, p: int)
    requires
        0 <= p <= ts.len(),
    ensures
        p <= skip_at_rule_spec(ts, p) <= ts.len(),
        p < ts.len() ==> p < skip_at_rule_spec(ts, p),
    decreases ts.len() - p,
{
    if p < ts.len() {
        match ts[p] {
            SpecToken::LeftBrace => lemma_skip_block_spec_pos(ts, p + 1, 1),
            SpecToken::Semicolon => {},
            _ => lemma_skip_at_rule_spec_pos(ts, p + 1),
        }
    }
}

proof fn lemma_rule_spec_pos(ts: Seq<SpecToken>, p: int)
    requires
        0 <= p <= ts.len(),
    ensures
        p <= rule_spec(ts, p).1 <= ts.len(),
        rule_spec(ts, p).0 is Some ==> p < rule_spec(ts, p).1,
{
    if tok(ts, p) is Some && tok(ts, p)->0 is AtKeyword {
        lemma_skip_at_rule_spec_pos(ts, p);
    } else {
        lemma_selector_list_spec_pos(ts, p);
        let (sl, p1) = selector_list_spec(ts, p);
        if sl is Some && tok(ts, p1) == Some(SpecToken::LeftBrace) {
            lemma_declarations_spec_pos(ts, p1 + 1);
        }
    }
}

// ── The parser ──────────────────────────────────────────────────────────

pub open spec fn tokens_view(v: Seq<Token>) -> Seq<SpecToken> {
    v.map_values(|t: Token| t@)
}

#[derive(Clone, Copy)]
enum Punct {
    Colon,
    Semicolon,
    Comma,
    LeftBrace,
    RightBrace,
}

spec fn punct_token(p: Punct) -> SpecToken {
    match p {
        Punct::Colon => SpecToken::Colon,
        Punct::Semicolon => SpecToken::Semicolon,
        Punct::Comma => SpecToken::Comma,
        Punct::LeftBrace => SpecToken::LeftBrace,
        Punct::RightBrace => SpecToken::RightBrace,
    }
}

struct Parser {
    tokens: Vec<Token>,
    pos: usize,
}

impl Parser {
    spec fn ts(&self) -> Seq<SpecToken> {
        tokens_view(self.tokens@)
    }

    spec fn wf(&self) -> bool {
        self.pos <= self.tokens.len()
    }

    fn is_at(&self, expected: Punct) -> (r: bool)
        requires
            self.wf(),
        ensures
            r == (tok(self.ts(), self.pos as int) == Some(punct_token(expected))),
    {
        if self.pos >= self.tokens.len() {
            return false;
        }
        let t = &self.tokens[self.pos];
        match (t, expected) {
            (Token::Colon, Punct::Colon) => true,
            (Token::Semicolon, Punct::Semicolon) => true,
            (Token::Comma, Punct::Comma) => true,
            (Token::LeftBrace, Punct::LeftBrace) => true,
            (Token::RightBrace, Punct::RightBrace) => true,
            _ => false,
        }
    }

    fn advance(&mut self)
        requires
            old(self).wf(),
        ensures
            final(self).wf(),
            final(self).tokens == old(self).tokens,
            final(self).pos == if old(self).pos < old(self).tokens.len() {
                old(self).pos + 1
            } else {
                old(self).pos as int
            },
    {
        if self.pos < self.tokens.len() {
            self.pos = self.pos + 1;
        }
    }

    fn is_bang(&self) -> (r: bool)
        requires
            self.wf(),
        ensures
            r == (tok(self.ts(), self.pos as int) == Some(SpecToken::Delim('!'))),
    {
        if self.pos >= self.tokens.len() {
            return false;
        }
        match &self.tokens[self.pos] {
            Token::Delim(c) => *c == '!',
            _ => false,
        }
    }

    fn expect_ident(&mut self) -> (r: Option<String>)
        requires
            old(self).wf(),
        ensures
            final(self).wf(),
            final(self).tokens == old(self).tokens,
            match tok(old(self).ts(), old(self).pos as int) {
                Some(SpecToken::Ident(n)) => r matches Some(s) && s@ == n && final(self).pos == old(self).pos + 1,
                _ => r is None && final(self).pos == old(self).pos,
            },
    {
        if self.pos >= self.tokens.len() {
            return None;
        }
        match &self.tokens[self.pos] {
            Token::Ident(name) => {
                let n = name.clone();
                self.pos = self.pos + 1;
                Some(n)
            },
            _ => None,
        }
    }

    fn parse_value(&mut self) -> (r: PropertyValue)
        requires
            old(self).wf(),
        ensures
            final(self).wf(),
            final(self).tokens == old(self).tokens,
            r@ == SpecValue::List(value_spec(old(self).ts(), old(self).pos as int).0),
            r is List,
            final(self).pos == value_spec(old(self).ts(), old(self).pos as int).1,
    {
        let ghost ts = self.ts();
        let ghost start = self.pos as int;
        let mut parts: Vec<PropertyValue> = Vec::new();
        proof {
            assert(values_view(parts@) + value_spec(ts, start).0 =~= value_spec(ts, start).0);
        }
        loop
            invariant
                self.wf(),
                self.tokens == old(self).tokens,
                ts == self.ts(),
                start <= self.pos,
                value_spec(ts, start).0 =~= values_view(parts@) + value_spec(ts, self.pos as int).0,
                value_spec(ts, start).1 == value_spec(ts, self.pos as int).1,
            ensures
                self.wf(),
                self.tokens == old(self).tokens,
                value_spec(ts, start).0 =~= values_view(parts@),
                value_spec(ts, start).1 == self.pos,
            decreases self.tokens.len() - self.pos,
        {
            if self.pos >= self.tokens.len() {
                assert(value_spec(ts, self.pos as int) == (Seq::<SpecValue>::empty(), self.pos as int));
                break;
            }
            let ghost p = self.pos as int;
            let ghost before = parts@;
            let t = &self.tokens[self.pos];
            assert(ts[p] == t@);
            match t {
                Token::Semicolon | Token::RightBrace => {
                    assert(value_spec(ts, p) == (Seq::<SpecValue>::empty(), p));
                    break;
                },
                Token::Delim(c) => {
                    if *c == '!' {
                        break;
                    }
                    self.pos = self.pos + 1;
                },
                Token::Ident(s) => {
                    parts.push(PropertyValue::Keyword(s.clone()));
                    self.pos = self.pos + 1;
                },
                Token::Number(n) => {
                    parts.push(PropertyValue::Number(n.clone()));
                    self.pos = self.pos + 1;
                },
                Token::Dimension(n, u) => {
                    parts.push(PropertyValue::Dimension(n.clone(), u.clone()));
                    self.pos = self.pos + 1;
                },
                Token::Percentage(n) => {
                    parts.push(PropertyValue::Percentage(n.clone()));
                    self.pos = self.pos + 1;
                },
                Token::Hash(n) => {
                    parts.push(PropertyValue::Color(n.clone()));
                    self.pos = self.pos + 1;
                },
                Token::String(s) => {
                    parts.push(PropertyValue::String(s.clone()));
                    self.pos = self.pos + 1;
                },
                Token::Dot => {
                    let mut dot = String::new();
                    push_char(&mut dot, '.');
                    assert(dot@ =~= seq!['.']);
                    parts.push(PropertyValue::Keyword(dot));
                    self.pos = self.pos + 1;
                },
                Token::Comma => {
                    parts.push(PropertyValue::Comma);
                    self.pos = self.pos + 1;
                },
                _ => {
                    self.pos = self.pos + 1;
                },
            }
            proof {
                if parts@.len() > before.len() {
                    let x = parts@[parts@.len() - 1];
                    assert(parts@ =~= before.push(x));
                    assert(parts@.subrange(0, parts@.len() - 1) =~= before);
                    assert(values_view(parts@) == values_view(before).push(value_view(x)));
                    assert(value_spec(ts, p).0 == seq![value_view(x)] + value_spec(ts, p + 1).0);
                    assert(values_view(parts@) + value_spec(ts, self.pos as int).0 =~= values_view(before) + (seq![value_view(x)] + value_spec(ts, self.pos as int).0));
                } else {
                    assert(value_spec(ts, p).0 == value_spec(ts, p + 1).0);
                }
            }
        }
        proof {
            assert(values_view(parts@) + Seq::<SpecValue>::empty() =~= values_view(parts@));
        }
        proof {
            assert(values_view(parts@) + Seq::<SpecValue>::empty() =~= values_view(parts@));
        }
        PropertyValue::List(parts)
    }

    fn parse_declaration(&mut self) -> (r: Option<Declaration>)
        requires
            old(self).wf(),
        ensures
            final(self).wf(),
            final(self).tokens == old(self).tokens,
            final(self).pos == declaration_spec(old(self).ts(), old(self).pos as int).1,
            match declaration_spec(old(self).ts(), old(self).pos as int).0 {
                Some(d) => r matches Some(x) && x@ == d,
                None => r is None,
            },
    {
        let property = match self.expect_ident() {
            Some(p) => p,
            None => {
                return None;
            },
        };
        if !self.is_at(Punct::Colon) {
            return None;
        }
        self.advance();
        let value = self.parse_value();
        let important = if self.is_bang() {
            self.advance();
            self.expect_ident();
            true
        } else {
            false
        };
        Some(Declaration { property, value, important })
    }

    fn parse_declarations(&mut self) -> (r: Vec<Declaration>)
        requires
            old(self).wf(),
        ensures
            final(self).wf(),
            final(self).tokens == old(self).tokens,
            r@.map_values(|d: Declaration| d@) =~= declarations_spec(old(self).ts(), old(self).pos as int).0,
            final(self).pos == declarations_spec(old(self).ts(), old(self).pos as int).1,
    {
        let ghost ts = self.ts();
        let ghost start = self.pos as int;
        let mut decls: Vec<Declaration> = Vec::new();
        proof {
            assert(decls@.map_values(|d: Declaration| d@) + declarations_spec(ts, start).0 =~= declarations_spec(ts, start).0);
        }
        loop
            invariant
                self.wf(),
                self.tokens == old(self).tokens,
                ts == self.ts(),
                start <= self.pos,
                declarations_spec(ts, start).0 =~= decls@.map_values(|d: Declaration| d@) + declarations_spec(ts, self.pos as int).0,
                declarations_spec(ts, start).1 == declarations_spec(ts, self.pos as int).1,
            ensures
                self.wf(),
                self.tokens == old(self).tokens,
                declarations_spec(ts, start).0 =~= decls@.map_values(|d: Declaration| d@),
                declarations_spec(ts, start).1 == self.pos,
            decreases self.tokens.len() - self.pos,
        {
            if self.pos >= self.tokens.len() {
                assert(declarations_spec(ts, self.pos as int).0 =~= Seq::<SpecDecl>::empty());
                break;
            }
            let ghost p = self.pos as int;
            let ghost before = decls@.map_values(|d: Declaration| d@);
            assert(ts[p] == self.tokens@[p]@);
            match &self.tokens[self.pos] {
                Token::RightBrace => {
                    assert(declarations_spec(ts, p).0 =~= Seq::<SpecDecl>::empty());
                    break;
                },
                Token::Semicolon => {
                    self.advance();
                },
                Token::Ident(_) => {
                    proof {
                        lemma_declaration_spec_pos(ts, p);
                    }
                    let d = self.parse_declaration();
                    let ghost p1 = self.pos as int;
                    if self.is_at(Punct::Semicolon) {
                        self.advance();
                    }
                    match d {
                        Some(x) => {
                            decls.push(x);
                            proof {
                                assert(decls@.map_values(|d: Declaration| d@) =~= before.push(decls@[decls@.len() - 1]@));
                            }
                        },
                        None => {},
                    }
                },
                _ => {
                    self.advance();
                },
            }
        }
        decls
    }

    fn parse_simple_selector(&mut self) -> (r: Option<Selector>)
        requires
            old(self).wf(),
        ensures
            final(self).wf(),
            final(self).tokens == old(self).tokens,
            final(self).pos == simple_spec(old(self).ts(), old(self).pos as int).1,
            match simple_spec(old(self).ts(), old(self).pos as int).0 {
                Some(x) => r matches Some(y) && y@ == x,
                None => r is None,
            },
    {
        if self.pos >= self.tokens.len() {
            return None;
        }
        let ghost p = self.pos as int;
        assert(self.ts()[p] == self.tokens@[p]@);
        match &self.tokens[self.pos] {
            Token::Ident(name) => {
                let name = name.clone();
                self.advance();
                Some(Selector::Type(name))
            },
            Token::Dot => {
                self.advance();
                match self.expect_ident() {
                    Some(name) => Some(Selector::Class(name)),
                    None => None,
                }
            },
            Token::Hash(name) => {
                let name = name.clone();
                self.advance();
                Some(Selector::Id(name))
            },
            Token::Delim(c) => {
                if *c == '*' {
                    self.advance();
                    Some(Selector::Universal)
                } else {
                    None
                }
            },
            _ => None,
        }
    }

    fn parse_selector(&mut self) -> (r: Option<Selector>)
        requires
            old(self).wf(),
        ensures
            final(self).wf(),
            final(self).tokens == old(self).tokens,
            final(self).pos == selector_spec(old(self).ts(), old(self).pos as int).1,
            match selector_spec(old(self).ts(), old(self).pos as int).0 {
                Some(x) => r matches Some(y) && y@ == x,
                None => r is None,
            },
    {
        let ghost ts = self.ts();
        let mut simple = match self.parse_simple_selector() {
            Some(s) => s,
            None => {
                return None;
            },
        };
        let ghost p1 = self.pos as int;
        loop
            invariant
                self.wf(),
                self.tokens == old(self).tokens,
                ts == self.ts(),
                compound_spec(ts, p1, simple_spec(ts, old(self).pos as int).0->0)
                    == compound_spec(ts, self.pos as int, simple@),
                p1 == simple_spec(ts, old(self).pos as int).1,
                simple_spec(ts, old(self).pos as int).0 is Some,
            ensures
                self.wf(),
                self.tokens == old(self).tokens,
                compound_spec(ts, p1, simple_spec(ts, old(self).pos as int).0->0)
                    == (Some(simple@), self.pos as int),
            decreases self.tokens.len() - self.pos,
        {
            if self.pos >= self.tokens.len() {
                break;
            }
            let ghost p = self.pos as int;
            let ghost acc = simple@;
            assert(ts[p] == self.tokens@[p]@);
            match &self.tokens[self.pos] {
                Token::Dot => {
                    self.advance();
                    assert(compound_spec(ts, p, acc) == match tok(ts, p + 1) {
                        Some(SpecToken::Ident(n)) => compound_spec(
                            ts,
                            p + 2,
                            SpecSelector::And(Box::new(acc), Box::new(SpecSelector::Class(n))),
                        ),
                        _ => (None, p + 1),
                    });
                    match self.expect_ident() {
                        Some(ident) => {
                            let ghost nv = ident@;
                            let cls = Selector::Class(ident);
                            proof {
                                lemma_and_view(simple, cls);
                            }
                            simple = Selector::And(Box::new(simple), Box::new(cls));
                            assert(simple@ == SpecSelector::And(Box::new(acc), Box::new(SpecSelector::Class(nv))));
                        },
                        None => {
                            return None;
                        },
                    }
                },
                Token::Hash(name) => {
                    let name = name.clone();
                    self.advance();
                    let ghost nv = name@;
                    let idsel = Selector::Id(name);
                    proof {
                        lemma_and_view(simple, idsel);
                    }
                    simple = Selector::And(Box::new(simple), Box::new(idsel));
                    assert(simple@ == SpecSelector::And(Box::new(acc), Box::new(SpecSelector::Id(nv))));
                    assert(compound_spec(ts, p, acc) == compound_spec(ts, p + 1, simple@));
                },
                Token::Colon => {
                    self.advance();
                    assert(compound_spec(ts, p, acc) == match tok(ts, p + 1) {
                        Some(SpecToken::Ident(n)) => compound_spec(
                            ts,
                            p + 2,
                            SpecSelector::And(Box::new(acc), Box::new(SpecSelector::PseudoClass(n))),
                        ),
                        _ => (None, p + 1),
                    });
                    match self.expect_ident() {
                        Some(ident) => {
                            let ghost nv = ident@;
                            let ps = Selector::PseudoClass(ident);
                            proof {
                                lemma_and_view(simple, ps);
                            }
                            simple = Selector::And(Box::new(simple), Box::new(ps));
                            assert(simple@ == SpecSelector::And(Box::new(acc), Box::new(SpecSelector::PseudoClass(nv))));
                        },
                        None => {
                            return None;
                        },
                    }
                },
                _ => {
                    break;
                },
            }
        }
        Some(simple)
    }

    fn parse_selector_list(&mut self) -> (r: Option<Vec<Selector>>)
        requires
            old(self).wf(),
        ensures
            final(self).wf(),
            final(self).tokens == old(self).tokens,
            final(self).pos == selector_list_spec(old(self).ts(), old(self).pos as int).1,
            match selector_list_spec(old(self).ts(), old(self).pos as int).0 {
                Some(x) => r matches Some(y) && y@.map_values(|s: Selector| s@) =~= x,
                None => r is None,
            },
    {
        let ghost ts = self.ts();
        let ghost start = self.pos as int;
        let mut selectors: Vec<Selector> = Vec::new();
        loop
            invariant
                self.wf(),
                self.tokens == old(self).tokens,
                ts == self.ts(),
                start <= self.pos,
                start == old(self).pos,
                self.pos == start || (self.pos > start && self.pos <= ts.len()),
                selectors@.len() == 0 ==> self.pos == start,
                match selector_list_spec(ts, self.pos as int).0 {
                    Some(rest) => selector_list_spec(ts, start).0 matches Some(all)
                        && all =~= selectors@.map_values(|s: Selector| s@) + rest,
                    None => selector_list_spec(ts, start).0 is None,
                },
                selector_list_spec(ts, start).1 == selector_list_spec(ts, self.pos as int).1,
            decreases self.tokens.len() - self.pos,
        {
            let ghost p = self.pos as int;
            proof {
                lemma_selector_spec_pos(ts, p);
            }
            let sel = match self.parse_selector() {
                Some(s) => s,
                None => {
                    assert(selector_list_spec(ts, p) == (None::<Seq<SpecSelector>>, selector_spec(ts, p).1));
                    return None;
                },
            };
            let ghost before = selectors@.map_values(|s: Selector| s@);
            selectors.push(sel);
            proof {
                assert(selectors@.map_values(|s: Selector| s@) =~= before.push(selectors@[selectors@.len() - 1]@));
            }
            if self.is_at(Punct::Comma) {
                self.advance();
                proof {
                    let p1 = selector_spec(ts, p).1;
                    lemma_selector_list_spec_pos(ts, p1 + 1);
                    match selector_list_spec(ts, p1 + 1).0 {
                        Some(rest) => {
                            assert(before + selector_list_spec(ts, p).0->0 =~= before.push(selectors@[selectors@.len() - 1]@) + rest);
                        },
                        None => {},
                    }
                }
                continue;
            }
            proof {
                assert(before + selector_list_spec(ts, p).0->0 =~= selectors@.map_values(|s: Selector| s@));
            }
            return Some(selectors);
        }
    }

    fn skip_at_rule(&mut self)
        requires
            old(self).wf(),
        ensures
            final(self).wf(),
            final(self).tokens == old(self).tokens,
            final(self).pos == skip_at_rule_spec(old(self).ts(), old(self).pos as int),
    {
        let ghost ts = self.ts();
        loop
            invariant
                self.wf(),
                self.tokens == old(self).tokens,
                ts == self.ts(),
                skip_at_rule_spec(ts, old(self).pos as int) == skip_at_rule_spec(ts, self.pos as int),
            decreases self.tokens.len() - self.pos,
        {
            if self.pos >= self.tokens.len() {
                return;
            }
            let ghost p = self.pos as int;
            assert(ts[p] == self.tokens@[p]@);
            match &self.tokens[self.pos] {
                Token::LeftBrace => {
                    self.advance();
                    let mut depth: usize = 1;
                    let ghost q0 = self.pos as int;
                    while depth > 0
                        invariant
                            self.wf(),
                            self.tokens == old(self).tokens,
                            ts == self.ts(),
                            q0 <= self.pos,
                            q0 >= 1,
                            depth <= self.pos - q0 + 1,
                            depth > 0 ==> skip_block_spec(ts, q0, 1) == skip_block_spec(ts, self.pos as int, depth as nat),
                            depth == 0 ==> skip_block_spec(ts, q0, 1) == self.pos,
                        ensures
                            self.wf(),
                            self.tokens == old(self).tokens,
                            skip_block_spec(ts, q0, 1) == self.pos,
                        decreases self.tokens.len() - self.pos, depth,
                    {
                        if self.pos >= self.tokens.len() {
                            assert(skip_block_spec(ts, self.pos as int, depth as nat) == self.pos);
                            break;
                        }
                        let ghost q = self.pos as int;
                        assert(ts[q] == self.tokens@[q]@);
                        match &self.tokens[self.pos] {
                            Token::LeftBrace => {
                                depth = depth + 1;
                            },
                            Token::RightBrace => {
                                depth = depth - 1;
                            },
                            _ => {},
                        }
                        self.advance();
                    }
                    return;
                },
                Token::Semicolon => {
                    self.advance();
                    return;
                },
                _ => {
                    self.advance();
                },
            }
        }
    }

    fn parse_rule(&mut self) -> (r: Option<Rule>)
        requires
            old(self).wf(),
        ensures
            final(self).wf(),
            final(self).tokens == old(self).tokens,
            final(self).pos == rule_spec(old(self).ts(), old(self).pos as int).1,
            match rule_spec(old(self).ts(), old(self).pos as int).0 {
                Some(x) => r matches Some(y) && y@ == x,
                None => r is None,
            },
    {
        let ghost ts = self.ts();
        let ghost p = self.pos as int;
        if self.pos < self.tokens.len() {
            assert(ts[p] == self.tokens@[p]@);
            match &self.tokens[self.pos] {
                Token::AtKeyword(_) => {
                    self.skip_at_rule();
                    return None;
                },
                _ => {},
            }
        }
        proof {
            lemma_selector_list_spec_pos(ts, p);
        }
        let selectors = match self.parse_selector_list() {
            Some(s) => s,
            None => {
                return None;
            },
        };
        if !self.is_at(Punct::LeftBrace) {
            return None;
        }
        self.advance();
        let declarations = self.parse_declarations();
        if self.is_at(Punct::RightBrace) {
            self.advance();
        }
        if selectors.len() == 0 {
            return None;
        }
        Some(Rule { selectors, declarations })
    }

    fn parse(&mut self) -> (r: ParsedStylesheet)
        requires
            old(self).wf(),
            old(self).pos == 0,
        ensures
            r@ =~= rules_spec(old(self).ts(), 0),
    {
        let ghost ts = self.ts();
        let mut rules: Vec<Rule> = Vec::new();
        proof {
            assert(rules@.map_values(|r: Rule| r@) + rules_spec(ts, 0) =~= rules_spec(ts, 0));
        }
        loop
            invariant
                self.wf(),
                self.tokens == old(self).tokens,
                ts == self.ts(),
                rules_spec(ts, 0) =~= rules@.map_values(|r: Rule| r@) + rules_spec(ts, self.pos as int),
            ensures
                rules_spec(ts, 0) =~= rules@.map_values(|r: Rule| r@),
            decreases self.tokens.len() - self.pos,
        {
            if self.pos >= self.tokens.len() {
                assert(rules_spec(ts, self.pos as int) =~= Seq::<SpecRule>::empty());
                break;
            }
            let ghost p = self.pos as int;
            assert(ts[p] == self.tokens@[p]@);
            match &self.tokens[self.pos] {
                Token::Eof => {
                    assert(rules_spec(ts, self.pos as int) =~= Seq::<SpecRule>::empty());
                    break;
                },
                _ => {},
            }
            proof {
                lemma_rule_spec_pos(ts, p);
            }
            let ghost before = rules@.map_values(|r: Rule| r@);
            match self.parse_rule() {
                Some(rule) => {
                    rules.push(rule);
                    proof {
                        assert(rules@.map_values(|r: Rule| r@) =~= before.push(rules@[rules@.len() - 1]@));
                    }
                },
                None => {
                    self.advance();
                },
            }
        }
        ParsedStylesheet { rules }
    }
}

/// Parses a style sheet into rules.
pub fn parse_stylesheet(input: &str) -> (r: ParsedStylesheet)
    ensures
        r@ =~= parse_stylesheet_spec(input@),
{
    let tokens = tokenize(input);
    let mut parser = Parser { tokens, pos: 0 };
    parser.parse()
}

} // verus!

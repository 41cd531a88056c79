//! CSS tokenizer: turns style-sheet text into a sequence of tokens.
//!
//! Numeric tokens carry the literal text of the number; the conversion to a
//! floating-point value is left to the caller.
use vstd::prelude::*;
use crate::text::{
    char_alphabetic, char_alphanumeric, char_whitespace, chars_of, is_alphabetic,
    is_alphanumeric, is_ascii_digit, is_digit, is_whitespace, push_char, string_of,
};

verus! {

/// A CSS token.
#[derive(Debug, Clone)]
pub enum Token {
    Ident(String),
    AtKeyword(String),
    Hash(String),
    String(String),
    /// A number, as written (`12`, `-0.5`, `+3`).
    Number(String),
    /// A percentage: the number as written, without the `%`.
    Percentage(String),
    /// A number as written, followed by its unit.
    Dimension(String, String),
    Colon,
    Semicolon,
    Comma,
    LeftBrace,
    RightBrace,
    LeftParen,
    RightParen,
    LeftBracket,
    RightBracket,
    Dot,
    HashToken,
    Whitespace,
    Comment,
    Delim(char),
    Eof,
}

/// The mathematical model of a token.
pub enum SpecToken {
    Ident(Seq<char>),
    AtKeyword(Seq<char>),
    Hash(Seq<char>),
    Str(Seq<char>),
    Number(Seq<char>),
    Percentage(Seq<char>),
    Dimension(Seq<char>, Seq<char>),
    Colon,
    Semicolon,
    Comma,
    LeftBrace,
    RightBrace,
    LeftParen,
    RightParen,
    LeftBracket,
    RightBracket,
    Dot,
    HashToken,
    Whitespace,
    Comment,
    Delim(char),
    Eof,
}

impl View for Token {
    type V = SpecToken;

    open spec fn view(&self) -> SpecToken {
        match self {
            Token::Ident(s) => SpecToken::Ident(s@),
            Token::AtKeyword(s) => SpecToken::AtKeyword(s@),
            Token::Hash(s) => SpecToken::Hash(s@),
            Token::String(s) => SpecToken::Str(s@),
            Token::Number(s) => SpecToken::Number(s@),
            Token::Percentage(s) => SpecToken::Percentage(s@),
            Token::Dimension(n, u) => SpecToken::Dimension(n@, u@),
            Token::Colon => SpecToken::Colon,
            Token::Semicolon => SpecToken::Semicolon,
            Token::Comma => SpecToken::Comma,
            Token::LeftBrace => SpecToken::LeftBrace,
            Token::RightBrace => SpecToken::RightBrace,
            Token::LeftParen => SpecToken::LeftParen,
            Token::RightParen => SpecToken::RightParen,
            Token::LeftBracket => SpecToken::LeftBracket,
            Token::RightBracket => SpecToken::RightBracket,
            Token::Dot => SpecToken::Dot,
            Token::HashToken => SpecToken::HashToken,
            Token::Whitespace => SpecToken::Whitespace,
            Token::Comment => SpecToken::Comment,
            Token::Delim(c) => SpecToken::Delim(*c),
            Token::Eof => SpecToken::Eof,
        }
    }
}

// ── The token grammar, over the remaining input ─────────────────────────

/// Characters that may continue an identifier.
pub open spec fn is_ident_char(c: char) -> bool {
    char_alphanumeric(c) || c == '-' || c == '_'
}

/// Length of the leading run of whitespace.
pub open spec fn ws_run(s: Seq<char>) -> nat
    decreases s.len(),
{
    if s.len() > 0 && char_whitespace(s[0]) {
        1 + ws_run(s.drop_first())
    } else {
        0
    }
}

/// Length of the leading run of identifier characters.
pub open spec fn ident_run(s: Seq<char>) -> nat
    decreases s.len(),
{
    if s.len() > 0 && is_ident_char(s[0]) {
        1 + ident_run(s.drop_first())
    } else {
        0
    }
}

/// Length of the leading run of digits, with at most one decimal point
/// (`has_dot` says whether one was already taken).
pub open spec fn number_run(s: Seq<char>, has_dot: bool) -> nat
    decreases s.len(),
{
    if s.len() > 0 && is_digit(s[0]) {
        1 + number_run(s.drop_first(), has_dot)
    } else if s.len() > 0 && s[0] == '.' && !has_dot {
        1 + number_run(s.drop_first(), true)
    } else {
        0
    }
}

/// Characters consumed by a comment body, after its opening `/*`: up to and
/// including the first `*/`, or to the end of the input.
pub open spec fn comment_len(s: Seq<char>) -> nat
    decreases s.len(),
{
    if s.len() == 0 {
        0
    } else if s[0] == '*' && s.len() > 1 && s[1] == '/' {
        2
    } else {
        1 + comment_len(s.drop_first())
    }
}

/// A quoted string body after its opening quote: the content (a backslash
/// takes the next character literally) and the characters consumed,
/// closing quote included.
pub open spec fn string_scan(s: Seq<char>, quote: char) -> (Seq<char>, nat)
    decreases s.len(),
{
    if s.len() == 0 {
        (Seq::empty(), 0)
    } else if s[0] == quote {
        (Seq::empty(), 1)
    } else if s[0] == '\\' {
        if s.len() > 1 {
            let rest = string_scan(s.skip(2), quote);
            (seq![s[1]] + rest.0, 2 + rest.1)
        } else {
            (Seq::empty(), 1)
        }
    } else {
        let rest = string_scan(s.drop_first(), quote);
        (seq![s[0]] + rest.0, 1 + rest.1)
    }
}

/// Leading whitespace removed.
pub open spec fn trim_start(s: Seq<char>) -> Seq<char> {
    s.skip(ws_run(s) as int)
}

/// The token that starts with character `c`, followed by the input `r`,
/// and how many characters of `r` it takes.
pub open spec fn token_after(c: char, r: Seq<char>) -> (SpecToken, nat) {
    if c == '/' && r.len() > 0 && r[0] == '*' {
        (SpecToken::Comment, 1 + comment_len(r.drop_first()))
    } else if c == '{' {
        (SpecToken::LeftBrace, 0)
    } else if c == '}' {
        (SpecToken::RightBrace, 0)
    } else if c == '(' {
        (SpecToken::LeftParen, 0)
    } else if c == ')' {
        (SpecToken::RightParen, 0)
    } else if c == '[' {
        (SpecToken::LeftBracket, 0)
    } else if c == ']' {
        (SpecToken::RightBracket, 0)
    } else if c == ':' {
        (SpecToken::Colon, 0)
    } else if c == ';' {
        (SpecToken::Semicolon, 0)
    } else if c == ',' {
        (SpecToken::Comma, 0)
    } else if c == '.' {
        (SpecToken::Dot, 0)
    } else if c == '#' {
        let k = ident_run(r);
        if k == 0 {
            (SpecToken::Delim('#'), 0)
        } else {
            (SpecToken::Hash(r.take(k as int)), k)
        }
    } else if c == '@' {
        let k = ident_run(r);
        (SpecToken::AtKeyword(trim_start(r.take(k as int))), k)
    } else if c == '"' || c == '\'' {
        let (body, n) = string_scan(r, c);
        (SpecToken::Str(body), n)
    } else if is_digit(c) || c == '+' || c == '-' {
        let d = number_run(r, false);
        let lexeme = seq![c] + r.take(d as int);
        let r2 = r.skip(d as int);
        if r2.len() > 0 && (char_alphabetic(r2[0]) || r2[0] == '%') {
            let k = ident_run(r2.drop_first());
            let unit = seq![r2[0]] + r2.drop_first().take(k as int);
            if unit == seq!['%'] {
                (SpecToken::Percentage(lexeme), d + 1 + k)
            } else {
                (SpecToken::Dimension(lexeme, unit), d + 1 + k)
            }
        } else {
            (SpecToken::Number(lexeme), d)
        }
    } else if char_alphabetic(c) || c == '_' {
        let k = ident_run(r);
        (SpecToken::Ident(seq![c] + r.take(k as int)), k)
    } else {
        (SpecToken::Delim(c), 0)
    }
}

/// The next token of the input `s` and how many characters it takes,
/// leading whitespace included. At the end of the input it is `Eof`.
pub open spec fn next_token_spec(s: Seq<char>) -> (SpecToken, nat) {
    let w = ws_run(s);
    let t = s.skip(w as int);
    if t.len() == 0 {
        (SpecToken::Eof, w)
    } else {
        let (tok, n) = token_after(t[0], t.drop_first());
        (tok, w + 1 + n)
    }
}

/// All tokens of the input, comments left out, up to the end.
pub open spec fn tokenize_spec(s: Seq<char>) -> Seq<SpecToken>
    decreases s.len(),
{
    let (t, n) = next_token_spec(s);
    if t is Eof || n == 0 || n > s.len() {
        Seq::empty()
    } else if t is Comment {
        tokenize_spec(s.skip(n as int))
    } else {
        seq![t] + tokenize_spec(s.skip(n as int))
    }
}

// ── Lemmas on the grammar ───────────────────────────────────────────────

/// The end marker is absorbing: it comes only when nothing but whitespace
/// is left, it consumes all of that, and on the empty rest it comes again
/// and consumes nothing.
pub proof fn lemma_eof_absorbing(s: Seq<char>)
    ensures
        next_token_spec(s).0 is Eof ==> next_token_spec(s).1 == s.len(),
        next_token_spec(Seq::<char>::empty()) == (SpecToken::Eof, 0nat),
{
    lemma_ws_run_bound(s);
    assert(ws_run(Seq::<char>::empty()) == 0);
    assert(Seq::<char>::empty().skip(0).len() == 0);
}

/// The tokens of an input hold no comment and no end marker.
pub proof fn lemma_tokens_hold_no_comment(s: Seq<char>)
    ensures
        forall|i: int| 0 <= i < tokenize_spec(s).len()
            ==> !((#[trigger] tokenize_spec(s)[i]) is Comment) && !(tokenize_spec(s)[i] is Eof),
    decreases s.len(),
{
    let (t, n) = next_token_spec(s);
    if !(t is Eof || n == 0 || n > s.len()) {
        lemma_tokens_hold_no_comment(s.skip(n as int));
        if !(t is Comment) {
            let rest = tokenize_spec(s.skip(n as int));
            assert(tokenize_spec(s) == seq![t] + rest);
            assert forall|i: int| 0 <= i < tokenize_spec(s).len()
                implies !((#[trigger] tokenize_spec(s)[i]) is Comment) && !(tokenize_spec(s)[i] is Eof) by {
                if i > 0 {
                    assert(tokenize_spec(s)[i] == rest[i - 1]);
                }
            }
        }
    }
}

pub proof fn lemma_ws_run_bound(s: Seq<char>)
    ensures
        ws_run(s) <= s.len(),
        forall|i: int| 0 <= i < ws_run(s) ==> char_whitespace(#[trigger] s[i]),
        ws_run(s) < s.len() ==> !char_whitespace(s[ws_run(s) as int]),
    decreases s.len(),
{
    if s.len() > 0 && char_whitespace(s[0]) {
        lemma_ws_run_bound(s.drop_first());
        assert forall|i: int| 0 <= i < ws_run(s) implies char_whitespace(#[trigger] s[i]) by {
            if i > 0 {
                assert(s[i] == s.drop_first()[i - 1]);
            }
        }
    }
}

pub proof fn lemma_ident_run_bound(s: Seq<char>)
    ensures
        ident_run(s) <= s.len(),
        forall|i: int| 0 <= i < ident_run(s) ==> is_ident_char(#[trigger] s[i]),
        ident_run(s) < s.len() ==> !is_ident_char(s[ident_run(s) as int]),
    decreases s.len(),
{
    if s.len() > 0 && is_ident_char(s[0]) {
        lemma_ident_run_bound(s.drop_first());
        assert forall|i: int| 0 <= i < ident_run(s) implies is_ident_char(#[trigger] s[i]) by {
            if i > 0 {
                assert(s[i] == s.drop_first()[i - 1]);
            }
        }
    }
}

pub proof fn lemma_number_run_bound(s: Seq<char>, has_dot: bool)
    ensures
        number_run(s, has_dot) <= s.len(),
    decreases s.len(),
{
    if s.len() > 0 && is_digit(s[0]) {
        lemma_number_run_bound(s.drop_first(), has_dot);
    } else if s.len() > 0 && s[0] == '.' && !has_dot {
        lemma_number_run_bound(s.drop_first(), true);
    }
}

pub proof fn lemma_comment_len_bound(s: Seq<char>)
    ensures
        comment_len(s) <= s.len(),
    decreases s.len(),
{
    if s.len() > 0 && !(s[0] == '*' && s.len() > 1 && s[1] == '/') {
        lemma_comment_len_bound(s.drop_first());
    }
}

pub proof fn lemma_string_scan_bound(s: Seq<char>, q: char)
    ensures
        string_scan(s, q).1 <= s.len(),
    decreases s.len(),
{
    if s.len() > 0 && s[0] != q {
        if s[0] == '\\' {
            if s.len() > 1 {
                lemma_string_scan_bound(s.skip(2), q);
            }
        } else {
            lemma_string_scan_bound(s.drop_first(), q);
        }
    }
}

/// A token other than `Eof` takes at least one character, and never more
/// than the input holds.
pub proof fn lemma_next_token_bound(s: Seq<char>)
    ensures
        next_token_spec(s).1 <= s.len(),
        !(next_token_spec(s).0 is Eof) ==> next_token_spec(s).1 > 0,
{
    lemma_ws_run_bound(s);
    let w = ws_run(s);
    let t = s.skip(w as int);
    if t.len() > 0 {
        let c = t[0];
        let r = t.drop_first();
        lemma_ident_run_bound(r);
        lemma_string_scan_bound(r, c);
        lemma_comment_len_bound(r.drop_first());
        lemma_number_run_bound(r, false);
        let d = number_run(r, false);
        let r2 = r.skip(d as int);
        if r2.len() > 0 {
            lemma_ident_run_bound(r2.drop_first());
        }
    }
}

// ── The tokenizer ───────────────────────────────────────────────────────

/// CSS tokenizer over a character buffer.
pub struct Tokenizer {
    input: Vec<char>,
    pos: usize,
}

impl View for Tokenizer {
    /// The whole input and the number of characters consumed so far.
    type V = (Seq<char>, nat);

    closed spec fn view(&self) -> (Seq<char>, nat) {
        (self.input@, self.pos as nat)
    }
}

impl Tokenizer {
    /// The tokenizer is consistent: it has not consumed more than its input.
    pub closed spec fn wf(&self) -> bool {
        self.pos <= self.input.len()
    }

    /// The input still to be read.
    pub open spec fn remaining(&self) -> Seq<char> {
        self@.0.skip(self@.1 as int)
    }

    pub fn new(input: &str) -> (r: Self)
        ensures
            r.wf(),
            r@ == (input@, 0nat),
            r@.1 <= r@.0.len(),
    {
        Tokenizer { input: chars_of(input), pos: 0 }
    }

    fn next_char(&mut self) -> (r: Option<char>)
        requires
            old(self).wf(),
        ensures
            final(self).wf(),
            final(self).input == old(self).input,
            old(self).pos < old(self).input.len() ==> r == Some(old(self).input@[old(self).pos as int])
                && final(self).pos == old(self).pos + 1,
            old(self).pos >= old(self).input.len() ==> r is None && final(self).pos == old(self).pos,
    {
        if self.pos < self.input.len() {
            let c = self.input[self.pos];
            self.pos = self.pos + 1;
            Some(c)
        } else {
            None
        }
    }

    fn peek(&self) -> (r: Option<char>)
        requires
            self.wf(),
        ensures
            self.pos < self.input.len() ==> r == Some(self.input@[self.pos as int]),
            self.pos >= self.input.len() ==> r is None,
    {
        if self.pos < self.input.len() {
            Some(self.input[self.pos])
        } else {
            None
        }
    }

    fn consume_whitespace(&mut self)
        requires
            old(self).wf(),
        ensures
            final(self).wf(),
            final(self).input == old(self).input,
            final(self).pos == old(self).pos + ws_run(old(self).remaining()),
    {
        let ghost start = self.pos;
        let ghost s = self.remaining();
        proof {
            lemma_ws_run_bound(s);
        }
        while self.pos < self.input.len() && is_whitespace(self.input[self.pos])
            invariant
                self.wf(),
                self.input@ == old(self).input@,
                self.input == old(self).input,
                start <= self.pos,
                s == self.input@.skip(start as int),
                ws_run(s) == (self.pos - start) + ws_run(self.input@.skip(self.pos as int)),
            decreases self.input.len() - self.pos,
        {
            proof {
                let t = self.input@.skip(self.pos as int);
                assert(t.drop_first() =~= self.input@.skip(self.pos + 1));
            }
            self.pos = self.pos + 1;
        }
    }

    fn consume_comment(&mut self)
        requires
            old(self).wf(),
        ensures
            final(self).wf(),
            final(self).input == old(self).input,
            final(self).pos == old(self).pos + comment_len(old(self).remaining()),
    {
        let ghost start = self.pos;
        let ghost s = self.remaining();
        loop
            invariant_except_break
                comment_len(s) == (self.pos - start) + comment_len(self.input@.skip(self.pos as int)),
            invariant
                self.wf(),
                self.input == old(self).input,
                start <= self.pos,
                s == self.input@.skip(start as int),
            ensures
                self.wf(),
                self.input == old(self).input,
                self.pos == start + comment_len(s),
            decreases self.input.len() - self.pos,
        {
            let ghost t = self.input@.skip(self.pos as int);
            proof {
                if self.pos < self.input.len() {
                    assert(t.drop_first() =~= self.input@.skip(self.pos + 1));
                }
            }
            match self.next_char() {
                Some(c) => {
                    if c == '*' && self.peek() == Some('/') {
                        self.next_char();
                        break;
                    }
                },
                None => {
                    break;
                },
            }
        }
    }

    /// `first` followed by the identifier characters that come next.
    fn consume_ident(&mut self, first: char) -> (r: String)
        requires
            old(self).wf(),
        ensures
            final(self).wf(),
            final(self).input == old(self).input,
            final(self).pos == old(self).pos + ident_run(old(self).remaining()),
            r@ == seq![first] + old(self).remaining().take(ident_run(old(self).remaining()) as int),
    {
        let mut s = String::new();
        push_char(&mut s, first);
        let tail = self.consume_hash();
        let mut i: usize = 0;
        let tv = chars_of(tail.as_str());
        while i < tv.len()
            invariant
                i <= tv.len(),
                s@ == seq![first] + tv@.take(i as int),
            decreases tv.len() - i,
        {
            push_char(&mut s, tv[i]);
            proof {
                assert(tv@.take(i as int).push(tv@[i as int]) =~= tv@.take(i + 1));
            }
            i = i + 1;
        }
        proof {
            assert(tv@.take(tv@.len() as int) =~= tv@);
        }
        s
    }

    /// The identifier characters that come next.
    fn consume_hash(&mut self) -> (r: String)
        requires
            old(self).wf(),
        ensures
            final(self).wf(),
            final(self).input == old(self).input,
            final(self).pos == old(self).pos + ident_run(old(self).remaining()),
            r@ == old(self).remaining().take(ident_run(old(self).remaining()) as int),
    {
        let ghost start = self.pos;
        let ghost s = self.remaining();
        let mut out = String::new();
        loop
            invariant
                self.wf(),
                self.input == old(self).input,
                start <= self.pos,
                s == self.input@.skip(start as int),
                ident_run(s) == (self.pos - start) + ident_run(self.input@.skip(self.pos as int)),
                out@ == s.take(self.pos - start),
            ensures
                self.wf(),
                self.input == old(self).input,
                self.pos == start + ident_run(s),
                out@ == s.take(ident_run(s) as int),
            decreases self.input.len() - self.pos,
        {
            let ghost t = self.input@.skip(self.pos as int);
            proof {
                if self.pos < self.input.len() {
                    assert(t.drop_first() =~= self.input@.skip(self.pos + 1));
                }
            }
            match self.peek() {
                Some(c) => {
                    if is_alphanumeric(c) || c == '-' || c == '_' {
                        self.next_char();
                        push_char(&mut out, c);
                        proof {
                            assert(s.take(self.pos - start - 1).push(c) =~= s.take(self.pos - start));
                        }
                    } else {
                        break;
                    }
                },
                None => {
                    break;
                },
            }
        }
        out
    }

    /// `first` followed by digits and at most one decimal point.
    fn consume_number(&mut self, first: char) -> (r: String)
        requires
            old(self).wf(),
            first != '.',
        ensures
            final(self).wf(),
            final(self).input == old(self).input,
            final(self).pos == old(self).pos + number_run(old(self).remaining(), false),
            r@ == seq![first] + old(self).remaining().take(number_run(old(self).remaining(), false) as int),
    {
        let ghost start = self.pos;
        let ghost s = self.remaining();
        let mut out = String::new();
        push_char(&mut out, first);
        let mut has_dot = first == '.';
        loop
            invariant
                self.wf(),
                self.input == old(self).input,
                start <= self.pos,
                s == self.input@.skip(start as int),
                number_run(s, false) == (self.pos - start) + number_run(self.input@.skip(self.pos as int), has_dot),
                out@ == seq![first] + s.take(self.pos - start),
            ensures
                self.wf(),
                self.input == old(self).input,
                self.pos == start + number_run(s, false),
                out@ == seq![first] + s.take(number_run(s, false) as int),
            decreases self.input.len() - self.pos,
        {
            let ghost t = self.input@.skip(self.pos as int);
            proof {
                if self.pos < self.input.len() {
                    assert(t.drop_first() =~= self.input@.skip(self.pos + 1));
                }
            }
            match self.peek() {
                Some(c) => {
                    if is_ascii_digit(c) {
                        self.next_char();
                        push_char(&mut out, c);
                    } else if c == '.' && !has_dot {
                        has_dot = true;
                        self.next_char();
                        push_char(&mut out, c);
                    } else {
                        break;
                    }
                    proof {
                        assert(seq![first] + s.take(self.pos - start - 1) + seq![c] =~= seq![first] + s.take(self.pos - start));
                    }
                },
                None => {
                    break;
                },
            }
        }
        out
    }

    /// A quoted string body; `quote` was already consumed.
    fn consume_string(&mut self, quote: char) -> (r: String)
        requires
            old(self).wf(),
            quote != '\\',
        ensures
            final(self).wf(),
            final(self).input == old(self).input,
            final(self).pos == old(self).pos + string_scan(old(self).remaining(), quote).1,
            r@ == string_scan(old(self).remaining(), quote).0,
    {
        let ghost start = self.pos;
        let ghost s = self.remaining();
        let mut out = String::new();
        loop
            invariant_except_break
                string_scan(s, quote).1 == (self.pos - start) + string_scan(self.input@.skip(self.pos as int), quote).1,
                string_scan(s, quote).0 == out@ + string_scan(self.input@.skip(self.pos as int), quote).0,
            invariant
                self.wf(),
                self.input == old(self).input,
                start <= self.pos,
                s == self.input@.skip(start as int),
            ensures
                self.wf(),
                self.input == old(self).input,
                self.pos == start + string_scan(s, quote).1,
                out@ == string_scan(s, quote).0,
            decreases self.input.len() - self.pos,
        {
            let ghost t = self.input@.skip(self.pos as int);
            proof {
                if self.pos < self.input.len() {
                    assert(t.drop_first() =~= self.input@.skip(self.pos + 1));
                }
                if t.len() > 1 {
                    assert(t.skip(2) =~= self.input@.skip(self.pos + 2));
                }
            }
            match self.next_char() {
                Some(c) => {
                    if c == quote {
                        break;
                    } else if c == '\\' {
                        match self.next_char() {
                            Some(next) => {
                                push_char(&mut out, next);
                                proof {
                                    assert(out@ + string_scan(t.skip(2), quote).0 =~= old(self).input@.take(0) + out@.drop_last() + (seq![next] + string_scan(t.skip(2), quote).0));
                                }
                            },
                            None => {},
                        }
                    } else {
                        push_char(&mut out, c);
                        proof {
                            assert(out@.drop_last() + (seq![c] + string_scan(t.drop_first(), quote).0) =~= out@ + string_scan(t.drop_first(), quote).0);
                        }
                    }
                },
                None => {
                    break;
                },
            }
        }
        out
    }

    /// Reads the next token, skipping the whitespace before it.
    #[verifier::rlimit(60)]
    #[verifier::spinoff_prover]
    pub fn next_token(&mut self) -> (r: Token)
        requires
            old(self).wf(),
        ensures
            final(self).wf(),
            final(self)@.0 == old(self)@.0,
            final(self)@.1 <= final(self)@.0.len(),
            r@ == next_token_spec(old(self).remaining()).0,
            r@ is Eof ==> final(self).remaining().len() == 0,
            old(self).remaining().len() == 0 ==> r@ is Eof && final(self)@ == old(self)@,
            final(self)@.1 == old(self)@.1 + next_token_spec(old(self).remaining()).1,
    {
        let ghost s = self.remaining();
        proof {
            lemma_eof_absorbing(s);
        }
        self.consume_whitespace();
        let ghost w = ws_run(s);
        let ghost t = self.remaining();
        proof {
            lemma_ws_run_bound(s);
            assert(t =~= s.skip(w as int));
        }
        let c = match self.next_char() {
            Some(c) => c,
            None => {
                return Token::Eof;
            },
        };
        let ghost r = self.remaining();
        proof {
            assert(r =~= t.drop_first());
        }
        if c == '/' && self.peek() == Some('*') {
            self.next_char();
            proof {
                assert(self.remaining() =~= r.drop_first());
            }
            self.consume_comment();
            return Token::Comment;
        }
        if c == '{' {
            Token::LeftBrace
        } else if c == '}' {
            Token::RightBrace
        } else if c == '(' {
            Token::LeftParen
        } else if c == ')' {
            Token::RightParen
        } else if c == '[' {
            Token::LeftBracket
        } else if c == ']' {
            Token::RightBracket
        } else if c == ':' {
            Token::Colon
        } else if c == ';' {
            Token::Semicolon
        } else if c == ',' {
            Token::Comma
        } else if c == '.' {
            Token::Dot
        } else if c == '#' {
            let name = self.consume_hash();
            if name.as_str().unicode_len() == 0 {
                Token::Delim('#')
            } else {
                Token::Hash(name)
            }
        } else if c == '@' {
            let name = self.consume_ident(' ');
            let space_is_ws = is_whitespace(' ');
            proof {
                let tail = r.take(ident_run(r) as int);
                assert((seq![' '] + tail).drop_first() =~= tail);
                assert(char_whitespace(' '));
                lemma_ws_run_bound(tail);
                assert(ws_run(seq![' '] + tail) == 1 + ws_run(tail));
                assert((seq![' '] + tail).skip(1 + ws_run(tail) as int) =~= tail.skip(ws_run(tail) as int));
                assert(trim_start(seq![' '] + tail) =~= trim_start(tail));
            }
            Token::AtKeyword(trim(name.as_str()))
        } else if c == '"' || c == '\'' {
            Token::String(self.consume_string(c))
        } else if is_ascii_digit(c) || c == '+' || c == '-' {
            let num = self.consume_number(c);
            let ghost d = number_run(r, false);
            let ghost r2 = self.remaining();
            proof {
                lemma_number_run_bound(r, false);
                assert(r2 =~= r.skip(d as int));
            }
            match self.peek() {
                Some(p) => {
                    if is_alphabetic(p) || p == '%' {
                        self.next_char();
                        proof {
                            assert(self.remaining() =~= r2.drop_first());
                        }
                        let unit = self.consume_ident(p);
                        let uv = chars_of(unit.as_str());
                        if uv.len() == 1 && uv[0] == '%' {
                            proof {
                                assert(unit@ =~= seq!['%']);
                            }
                            Token::Percentage(num)
                        } else {
                            proof {
                                assert(unit@ != seq!['%']) by {
                                    if unit@ == seq!['%'] {
                                        assert(uv@.len() == 1 && uv@[0] == '%');
                                    }
                                }
                            }
                            Token::Dimension(num, unit)
                        }
                    } else {
                        Token::Number(num)
                    }
                },
                None => Token::Number(num),
            }
        } else if is_alphabetic(c) || c == '_' {
            Token::Ident(self.consume_ident(c))
        } else {
            Token::Delim(c)
        }
    }
}

/// Leading whitespace removed from a string (the standard library's
/// `trim`, whose trailing half never applies to identifier characters
/// preceded by a space; the tokenizer only trims such names).
fn trim(s: &str) -> (r: String)
    ensures
        r@ == trim_start(s@),
{
    let cs = chars_of(s);
    let mut i: usize = 0;
    proof {
        lemma_ws_run_bound(s@);
    }
    while i < cs.len() && is_whitespace(cs[i])
        invariant
            cs@ == s@,
            i <= ws_run(s@),
            forall|j: int| 0 <= j < ws_run(s@) ==> char_whitespace(#[trigger] s@[j]),
            ws_run(s@) <= s@.len(),
            ws_run(s@) < s@.len() ==> !char_whitespace(s@[ws_run(s@) as int]),
        decreases cs.len() - i,
    {
        i = i + 1;
    }
    let mut out = String::new();
    let mut k = i;
    while k < cs.len()
        invariant
            cs@ == s@,
            i == ws_run(s@),
            i <= k <= cs.len(),
            out@ == s@.subrange(i as int, k as int),
        decreases cs.len() - k,
    {
        push_char(&mut out, cs[k]);
        proof {
            assert(s@.subrange(i as int, k as int).push(s@[k as int]) =~= s@.subrange(i as int, k + 1));
        }
        k = k + 1;
    }
    proof {
        assert(s@.subrange(i as int, cs.len() as int) =~= s@.skip(i as int));
    }
    out
}

/// All tokens of a style sheet, comments left out.
pub fn tokenize(input: &str) -> (r: Vec<Token>)
    ensures
        r@.map_values(|t: Token| t@) == tokenize_spec(input@),
{
    let mut tok = Tokenizer::new(input);
    let mut tokens: Vec<Token> = Vec::new();
    proof {
        assert(tok.remaining() =~= input@);
        assert(tokens@.map_values(|t: Token| t@) =~= Seq::<SpecToken>::empty());
        assert(Seq::<SpecToken>::empty() + tokenize_spec(input@) =~= tokenize_spec(input@));
    }
    loop
        invariant
            tok.wf(),
            tok@.0 == input@,
            tok@.1 <= input@.len(),
            tokens@.map_values(|t: Token| t@) + tokenize_spec(tok.remaining()) == tokenize_spec(input@),
        ensures
            tokens@.map_values(|t: Token| t@) == tokenize_spec(input@),
        decreases input@.len() - tok@.1,
    {
        let ghost s = tok.remaining();
        proof {
            lemma_next_token_bound(s);
        }
        let t = tok.next_token();
        proof {
            assert(tok.remaining() =~= s.skip(next_token_spec(s).1 as int));
        }
        match t {
            Token::Eof => {
                proof {
                    assert(tokens@.map_values(|t: Token| t@) + tokenize_spec(s) =~= tokens@.map_values(|t: Token| t@));
                }
                break;
            },
            Token::Comment => {},
            _ => {
                let ghost before = tokens@.map_values(|t: Token| t@);
                tokens.push(t);
                proof {
                    assert(tokens@.map_values(|t: Token| t@) =~= before.push(t@));
                    assert(before + tokenize_spec(s) =~= before.push(t@) + tokenize_spec(tok.remaining()));
                }
            },
        }
    }
    tokens
}

} // verus!

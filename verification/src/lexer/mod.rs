//! Turning source text into tokens.
pub mod chars;
pub mod classify;
pub mod laws;
pub mod order;
pub mod scan;
pub mod spec;
pub mod token;

use vstd::prelude::*;

use crate::lexer::chars::{class_of, classify_char, CharClass};
use crate::lexer::classify::{exec_pair_kind, exec_single_kind, exec_word_kind, string_of};
use crate::lexer::scan::{
    exec_scan_block, exec_scan_line, exec_scan_number, exec_scan_quoted, exec_scan_word,
};
use crate::lexer::order::{lemma_tokens_in_order, tokens_in_order};
use crate::lexer::spec::{
    classes_of, lex_from, lex_step, lex_with, opt_seq, prepend, punct_token, spec_lex, start_state, LexState,
};
use crate::lexer::token::{token_views, Literal, Token, TokenType, TokenView};
use crate::span::{Span, SpanPoint};

verus! {

/// The view of an optional token.
pub open spec fn opt_view(t: Option<Token>) -> Option<TokenView> {
    match t {
        Some(t) => Some(t@),
        None => None,
    }
}

/// The views of the tokens of an optional vector of tokens.
pub open spec fn opt_views(r: Option<Vec<Token>>) -> Option<Seq<TokenView>> {
    match r {
        Some(v) => Some(token_views(v@)),
        None => None,
    }
}

/// The span from (`l1`, `c1`) to (`l2`, `c2`).
fn span_from_to(l1: usize, c1: usize, l2: usize, c2: usize) -> (s: Span)
    ensures
        s == (Span {
            from: SpanPoint { line: l1, column: c1 },
            to: SpanPoint { line: l2, column: c2 },
        }),
{
    Span { from: SpanPoint { line: l1, column: c1 }, to: SpanPoint { line: l2, column: c2 } }
}

/// The operator or delimiter token at `i` (see `punct_token`).
fn exec_punct(s: &Vec<char>, i: usize, line: usize, col1: usize) -> (r: Option<(Token, usize)>)
    requires
        s@.len() < usize::MAX,
        i < s@.len(),
        col1 <= i + 1,
    ensures
        r is None <==> punct_token(s@, i as nat, line as nat, col1 as nat) is None,
        r matches Some((t, j)) ==> punct_token(s@, i as nat, line as nat, col1 as nat) == Some(
            (t@, j as nat),
        ) && i < j <= s@.len(),
{
    let c = s[i];
    if c == '.' && i + 2 < s.len() && s[i + 1] == '.' && s[i + 2] == '=' {
        let lit = string_of(&['.', '.', '=']);
        assert(lit@ =~= seq!['.', '.', '=']);
        let t = Token::new(TokenType::DoublePeriodEquals, lit, span_from_to(line, col1, line, col1 + 2));
        return Some((t, i + 3));
    }
    if i + 1 < s.len() {
        let d = s[i + 1];
        if let Some(kind) = exec_pair_kind(c, d) {
            let lit = string_of(&[c, d]);
            assert(lit@ =~= seq![c, d]);
            let t = Token::new(kind, lit, span_from_to(line, col1, line, col1 + 1));
            return Some((t, i + 2));
        }
    }
    if let Some(kind) = exec_single_kind(c) {
        let lit = string_of(&[c]);
        assert(lit@ =~= seq![c]);
        let t = Token::new(kind, lit, span_from_to(line, col1, line, col1));
        return Some((t, i + 1));
    }
    None
}

/// One step of the lexer (see `lex_step`): the token it gives, if any, and
/// the next index, line, column and template flag.
fn exec_step(s: &Vec<char>, k: &Vec<CharClass>, i: usize, line: usize, col: usize, tmpl: bool) -> (r: Option<
    (Option<Token>, usize, usize, usize, bool),
>)
    requires
        s@.len() < usize::MAX,
        k@.len() == s@.len(),
        i < s@.len(),
        line <= i + 1,
        col <= i,
    ensures
        r is None <==> lex_step(
            s@,
            k@,
            LexState { i: i as nat, line: line as nat, col: col as nat, tmpl },
        ) is None,
        r matches Some((t, j, l, c, tm)) ==> {
            &&& lex_step(s@, k@, LexState { i: i as nat, line: line as nat, col: col as nat, tmpl })
                == Some(
                (opt_view(t), LexState { i: j as nat, line: l as nat, col: c as nat, tmpl: tm }),
            )
            &&& i < j <= s@.len()
            &&& l <= j + 1
            &&& c <= j
        },
{
    let c = s[i];
    let kc = k[i];
    let col1 = col + 1;
    let next_is = |x: char| -> (b: bool)
        ensures
            b == (i + 1 < s@.len() && s@[i + 1] == x),
        { i + 1 < s.len() && s[i + 1] == x };
    if c == '\n' {
        return Some((None, i + 1, line + 1, 0, tmpl));
    }
    if kc.whitespace {
        return Some((None, i + 1, line, col1, tmpl));
    }
    if c == '/' && next_is('*') {
        let (j, l, cc) = exec_scan_block(s, i + 2, line, col1 + 1);
        return Some((None, j, l, cc, tmpl));
    }
    if c == '/' && next_is('/') {
        return match exec_scan_line(s, i + 2, col1 + 1) {
            None => None,
            Some((j, cc)) => Some((None, j, line, cc, tmpl)),
        };
    }
    if c == '"' {
        let (j, l, cc, text, hit) = exec_scan_quoted(s, i + 1, line, col1, false, '"', true);
        let kind = if hit {
            TokenType::TemplateStringStart
        } else {
            TokenType::Literal(Literal::String)
        };
        let t = Token::new(kind, text, span_from_to(line, col1, l, cc));
        return Some((Some(t), j, l, cc, hit || tmpl));
    }
    if c == '}' && tmpl {
        let (j, l, cc, text, hit) = exec_scan_quoted(s, i + 1, line, col1, false, '"', true);
        let kind = if hit {
            TokenType::TemplateStringMiddle
        } else {
            TokenType::TemplateStringEnd
        };
        let t = Token::new(kind, text, span_from_to(line, col1, l, cc));
        return Some((Some(t), j, l, cc, hit));
    }
    if c == '\'' {
        let (j, l, cc, text, hit) = exec_scan_quoted(s, i + 1, line, col1, true, '\'', false);
        let t = Token::new(TokenType::Literal(Literal::Char), text, span_from_to(line, col1, l, cc));
        return Some((Some(t), j, l, cc, tmpl));
    }
    if kc.numeric {
        let (j, cc, text) = exec_scan_number(s, k, i + 1, col1, c);
        let t = Token::new(TokenType::Literal(Literal::Number), text, span_from_to(line, col1, line, cc));
        return Some((Some(t), j, line, cc, tmpl));
    }
    if kc.uppercase {
        let (j, cc, text) = exec_scan_word(s, k, i + 1, col1, c, false);
        let t = Token::new(TokenType::TypeName, text, span_from_to(line, col1, line, cc));
        return Some((Some(t), j, line, cc, tmpl));
    }
    if kc.alphabetic || c == '_' {
        let (j, cc, text) = exec_scan_word(s, k, i + 1, col1, c, true);
        let kind = exec_word_kind(&text);
        let t = Token::new(kind, text, span_from_to(line, col1, line, cc));
        return Some((Some(t), j, line, cc, tmpl));
    }
    match exec_punct(s, i, line, col1) {
        None => None,
        Some((t, j)) => Some((Some(t), j, line, col1 + (j - i - 1), tmpl)),
    }
}

proof fn lemma_prepend_assoc(a: Seq<TokenView>, b: Seq<TokenView>, o: Option<Seq<TokenView>>)
    ensures
        prepend(a, prepend(b, o)) == prepend(a + b, o),
{
    if let Some(r) = o {
        assert(a + (b + r) =~= (a + b) + r);
    }
}

/// The classes of each of the characters `s`, asked of std.
fn classify_chars(s: &Vec<char>) -> (k: Vec<CharClass>)
    ensures
        k@ == classes_of(s@),
{
    let mut k: Vec<CharClass> = Vec::new();
    for i in 0..s.len()
        invariant
            k@ == classes_of(s@).take(i as int),
    {
        k.push(classify_char(s[i]));
        assert(k@ =~= classes_of(s@).take(i + 1));
    }
    assert(k@ =~= classes_of(s@));
    k
}

/// The tokens of the characters `s`, whose classes are `k` (see
/// `lex_with`); `None` where the lexer cannot go on.
pub fn lex_classified(s: &Vec<char>, k: &Vec<CharClass>) -> (r: Option<Vec<Token>>)
    requires
        s@.len() < usize::MAX,
        k@.len() == s@.len(),
    ensures
        opt_views(r) == lex_with(s@, k@),
{
    let mut tokens: Vec<Token> = Vec::new();
    let mut i: usize = 0;
    let mut line: usize = 1;
    let mut col: usize = 0;
    let mut tmpl = false;
    assert(token_views(tokens@) =~= Seq::<TokenView>::empty());
    while i < s.len()
        invariant
            s@.len() < usize::MAX,
            i <= s@.len(),
            line <= i + 1,
            col <= i,
            k@.len() == s@.len(),
            lex_with(s@, k@) == prepend(
                token_views(tokens@),
                lex_from(s@, k@, LexState { i: i as nat, line: line as nat, col: col as nat, tmpl }),
            ),
        decreases s@.len() - i,
    {
        let ghost st = LexState { i: i as nat, line: line as nat, col: col as nat, tmpl };
        let ghost before = token_views(tokens@);
        match exec_step(s, k, i, line, col, tmpl) {
            None => {
                return None;
            },
            Some((t, j, l, c, tm)) => {
                let ghost next = LexState { i: j as nat, line: l as nat, col: c as nat, tmpl: tm };
                proof {
                    lemma_prepend_assoc(before, opt_seq(opt_view(t)), lex_from(s@, k@, next));
                }
                match t {
                    Some(t) => {
                        tokens.push(t);
                        assert(token_views(tokens@) =~= before + opt_seq(opt_view(Some(t))));
                    },
                    None => {
                        assert(before + opt_seq(opt_view(None)) =~= before);
                    },
                }
                i = j;
                line = l;
                col = c;
                tmpl = tm;
            },
        }
    }
    assert(token_views(tokens@) + Seq::<TokenView>::empty() =~= token_views(tokens@));
    Some(tokens)
}

/// The tokens of the characters `s` (see `spec_lex`); `None` where the
/// lexer cannot go on.
fn lex_chars(s: &Vec<char>) -> (r: Option<Vec<Token>>)
    requires
        s@.len() < usize::MAX,
    ensures
        opt_views(r) == spec_lex(s@),
{
    let k = classify_chars(s);
    lex_classified(s, &k)
}

/// The characters of `content`, in order.
pub fn chars_of(content: &String) -> (v: Vec<char>)
    ensures
        v@ == content@,
{
    let mut v: Vec<char> = Vec::new();
    for c in it: content.as_str().chars()
        invariant
            it.seq() == content@,
            v@ == it.seq().take(it.index() as int),
    {
        v.push(c);
        assert(v@ =~= it.seq().take(it.index() as int + 1));
    }
    assert(v@ =~= content@);
    v
}

/// Whether the lexer can turn `content` into tokens: it cannot where a
/// character outside strings and comments starts no token, or where a line
/// comment is not ended by a new line.
fn can_lex(content: &String) -> (b: bool)
    requires
        content@.len() < usize::MAX,
    ensures
        b == spec_lex(content@) is Some,
{
    let chars = chars_of(content);
    lex_chars(&chars).is_some()
}

/// The tokens of the source text `content`, in order, each with its kind,
/// its text and its span (see `spec_lex`). New lines, whitespace and
/// comments give no tokens.
pub fn lex_into_tokens(content: String) -> (tokens: Vec<Token>)
    requires
        content@.len() < usize::MAX,
        spec_lex(content@) is Some,
    ensures
        spec_lex(content@) == Some(token_views(tokens@)),
        tokens_in_order(token_views(tokens@)),
{
    proof {
        lemma_tokens_in_order(content@, classes_of(content@));
    }
    let chars = chars_of(&content);
    match lex_chars(&chars) {
        Some(tokens) => tokens,
        None => Vec::new(),
    }
}

/// The tokens of the source text `content` (see `lex_into_tokens`), or
/// `None` where the lexer cannot turn it into tokens.
pub fn try_lex_into_tokens(content: String) -> (r: Option<Vec<Token>>)
    requires
        content@.len() < usize::MAX,
    ensures
        opt_views(r) == spec_lex(content@),
{
    if can_lex(&content) {
        Some(lex_into_tokens(content))
    } else {
        None
    }
}

} // verus!

//! Where the lexer's tokens stand in the text: each span starts no later
//! than it ends, and the tokens come in source order without overlapping.
use vstd::prelude::*;

use crate::lexer::chars::CharClass;
use crate::lexer::spec::{
    lemma_step_advances, lex_from, lex_step, opt_seq, peek, punct_token, scan_block, scan_line,
    scan_number, scan_quoted, scan_word, start_state, lex_with, word_char, LexState,
};
use crate::lexer::token::TokenView;
use crate::span::SpanPoint;

verus! {

/// Whether the point (`l1`, `c1`) comes no later than (`l2`, `c2`): on an
/// earlier line, or on the same line at no later column.
pub open spec fn pos_le(l1: int, c1: int, l2: int, c2: int) -> bool {
    l1 < l2 || (l1 == l2 && c1 <= c2)
}

/// Whether `a` comes strictly before `b` in the text.
pub open spec fn point_before(a: SpanPoint, b: SpanPoint) -> bool {
    a.line < b.line || (a.line == b.line && a.column < b.column)
}

/// Whether `a` comes no later than `b` in the text.
pub open spec fn point_le(a: SpanPoint, b: SpanPoint) -> bool {
    pos_le(a.line as int, a.column as int, b.line as int, b.column as int)
}

/// Tokens in source order: each starts on a line and column counted from
/// one and ends no earlier than it starts, and each ends before the next
/// one starts.
pub open spec fn tokens_in_order(ts: Seq<TokenView>) -> bool {
    &&& forall|i: int|
        0 <= i < ts.len() ==> {
            &&& (#[trigger] ts[i]).span.from.line >= 1
            &&& ts[i].span.from.column >= 1
            &&& point_le(ts[i].span.from, ts[i].span.to)
        }
    &&& forall|i: int, j: int| 0 <= i < j < ts.len() ==> point_before(#[trigger] ts[i].span.to, #[trigger] ts[j].span.from)
}

proof fn lemma_block_moves(s: Seq<char>, j: nat, line: nat, col: nat, nested: nat)
    requires
        j <= s.len(),
        col <= j,
        line <= j + 1,
    ensures
        ({
            let (k, l, c) = scan_block(s, j, line, col, nested);
            &&& c <= k
            &&& l <= k + 1
            &&& pos_le(line as int, col as int, l as int, c as int)
        }),
    decreases s.len() - j,
{
    if j < s.len() {
        let c = s[j as int];
        if c == '\n' {
            lemma_block_moves(s, j + 1, line + 1, 0, nested);
        } else if c == '/' && peek(s, j + 1) == Some('*') {
            lemma_block_moves(s, j + 2, line, col + 2, nested + 1);
        } else if c == '*' && peek(s, j + 1) == Some('/') {
            if nested > 0 {
                lemma_block_moves(s, j + 2, line, col + 2, (nested - 1) as nat);
            }
        } else {
            lemma_block_moves(s, j + 1, line, col + 1, nested);
        }
    }
}

proof fn lemma_line_moves(s: Seq<char>, j: nat, col: nat)
    requires
        col <= j,
    ensures
        scan_line(s, j, col) matches Some((k, c)) ==> col <= c <= k,
    decreases s.len() - j,
{
    if j < s.len() && s[j as int] != '\n' {
        lemma_line_moves(s, j + 1, col + 1);
    }
}

proof fn lemma_quoted_moves(
    s: Seq<char>,
    j: nat,
    line: nat,
    col: nat,
    text: Seq<char>,
    escaped: bool,
    quote: char,
    brace: bool,
)
    requires
        j <= s.len(),
        col <= j,
        line <= j + 1,
    ensures
        ({
            let q = scan_quoted(s, j, line, col, text, escaped, quote, brace);
            &&& q.col <= q.j
            &&& q.line <= q.j + 1
            &&& pos_le(line as int, col as int, q.line as int, q.col as int)
        }),
    decreases s.len() - j,
{
    if j < s.len() {
        let c = s[j as int];
        if c == '\\' {
            lemma_quoted_moves(s, j + 1, line, col + 1, text.push(c), true, quote, brace);
        } else if !escaped && c == quote {
        } else if !escaped && brace && c == '{' {
        } else if c == '\n' {
            lemma_quoted_moves(s, j + 1, line + 1, 0, text.push(c), false, quote, brace);
        } else {
            lemma_quoted_moves(s, j + 1, line, col + 1, text.push(c), false, quote, brace);
        }
    }
}

proof fn lemma_number_moves(
    s: Seq<char>,
    k: Seq<CharClass>,
    j: nat,
    col: nat,
    text: Seq<char>,
    ap: bool,
    ae: bool,
    pp: bool,
)
    requires
        col <= j,
    ensures
        col <= scan_number(s, k, j, col, text, ap, ae, pp).1 <= scan_number(s, k, j, col, text, ap, ae, pp).0,
    decreases s.len() - j,
{
    if j < s.len() {
        let p = s[j as int];
        if !k[j as int].numeric {
            if p == '.' && !ap {
            } else if p == 'e' && !ae {
            } else if p == '.' {
                lemma_number_moves(s, k, j + 1, col, text, false, ae, true);
            } else if p == 'e' && !pp {
                lemma_number_moves(s, k, j + 1, col + 1, text.push(p), false, false, false);
            }
        } else {
            let text1 = if pp {
                text.push('.')
            } else {
                text
            };
            lemma_number_moves(s, k, j + 1, col + 1, text1.push(p), ap, ae, false);
        }
    }
}

proof fn lemma_word_moves(s: Seq<char>, k: Seq<CharClass>, j: nat, col: nat, text: Seq<char>, u: bool)
    requires
        col <= j,
    ensures
        col <= scan_word(s, k, j, col, text, u).1 <= scan_word(s, k, j, col, text, u).0,
    decreases s.len() - j,
{
    if j < s.len() && word_char(k[j as int], s[j as int], u) {
        lemma_word_moves(s, k, j + 1, col + 1, text.push(s[j as int]), u);
    }
}

/// What holds of every state the lexer reaches: it stands within the text,
/// on a line counted from one, and neither its line nor its column runs
/// ahead of the characters read.
pub open spec fn state_ok(s: Seq<char>, st: LexState) -> bool {
    &&& st.i <= s.len()
    &&& 1 <= st.line <= st.i + 1
    &&& st.col <= st.i
}

/// A step of the lexer moves its position forward (or leaves it), and a
/// token it gives starts just after the old position and ends at the new.
proof fn lemma_step_moves(s: Seq<char>, k: Seq<CharClass>, st: LexState)
    requires
        state_ok(s, st),
        st.i < s.len(),
        s.len() < usize::MAX,
        lex_step(s, k, st) is Some,
    ensures
        ({
            let (t, next) = lex_step(s, k, st)->0;
            &&& state_ok(s, next)
            &&& pos_le(st.line as int, st.col as int, next.line as int, next.col as int)
            &&& t matches Some(tk) ==> {
                &&& tk.span.from.line as int == st.line
                &&& tk.span.from.column as int == st.col + 1
                &&& tk.span.to.line as int == next.line
                &&& tk.span.to.column as int == next.col
                &&& pos_le(st.line as int, (st.col + 1) as int, next.line as int, next.col as int)
            }
        }),
{
    lemma_step_advances(s, k, st);
    let i = st.i;
    let line = st.line;
    let c = s[i as int];
    let kc = k[i as int];
    let col1 = st.col + 1;
    let next = peek(s, i + 1);
    if c == '\n' {
    } else if kc.whitespace {
    } else if c == '/' && next == Some('*') {
        lemma_block_moves(s, i + 2, line, col1 + 1, 0);
    } else if c == '/' && next == Some('/') {
        lemma_line_moves(s, i + 2, col1 + 1);
    } else if c == '"' || (c == '}' && st.tmpl) {
        lemma_quoted_moves(s, i + 1, line, col1, Seq::empty(), false, '"', true);
    } else if c == '\'' {
        lemma_quoted_moves(s, i + 1, line, col1, Seq::empty(), true, '\'', false);
    } else if kc.numeric {
        lemma_number_moves(s, k, i + 1, col1, seq![c], true, true, false);
    } else if kc.uppercase {
        lemma_word_moves(s, k, i + 1, col1, seq![c], false);
    } else if kc.alphabetic || c == '_' {
        lemma_word_moves(s, k, i + 1, col1, seq![c], true);
    } else {
        let (t, j) = punct_token(s, i, line, col1)->0;
        assert(j == i + 1 || j == i + 2 || j == i + 3);
    }
}

/// From a state the lexer reaches on, the tokens come in source order and
/// all start after the state's position.
proof fn lemma_from_in_order(s: Seq<char>, k: Seq<CharClass>, st: LexState)
    requires
        state_ok(s, st),
        s.len() < usize::MAX,
        lex_from(s, k, st) is Some,
    ensures
        tokens_in_order(lex_from(s, k, st)->0),
        forall|n: int|
            0 <= n < (lex_from(s, k, st)->0).len() ==> pos_le(
                st.line as int,
                (st.col + 1) as int,
                (#[trigger] (lex_from(s, k, st)->0)[n]).span.from.line as int,
                (lex_from(s, k, st)->0)[n].span.from.column as int,
            ),
    decreases s.len() - st.i,
{
    if st.i < s.len() {
        lemma_step_advances(s, k, st);
        lemma_step_moves(s, k, st);
        let (t, next) = lex_step(s, k, st)->0;
        lemma_from_in_order(s, k, next);
        let rest = lex_from(s, k, next)->0;
        let r = lex_from(s, k, st)->0;
        assert(r == opt_seq(t) + rest);
        match t {
            None => {
                assert(r =~= rest);
            },
            Some(tk) => {
                assert(r[0] == tk);
                assert forall|n: int| 0 <= n < rest.len() implies r[n + 1] == rest[n] by {}
                assert forall|a: int, b: int| 0 <= a < b < r.len() implies point_before(
                    #[trigger] r[a].span.to,
                    #[trigger] r[b].span.from,
                ) by {
                    if a == 0 {
                        assert(r[b] == rest[b - 1]);
                    } else {
                        assert(r[a] == rest[a - 1] && r[b] == rest[b - 1]);
                    }
                }
                assert forall|n: int| 0 <= n < r.len() implies {
                    &&& (#[trigger] r[n]).span.from.line >= 1
                    &&& r[n].span.from.column >= 1
                    &&& point_le(r[n].span.from, r[n].span.to)
                } by {
                    if n > 0 {
                        assert(r[n] == rest[n - 1]);
                    }
                }
                assert forall|n: int| 0 <= n < r.len() implies pos_le(
                    st.line as int,
                    (st.col + 1) as int,
                    (#[trigger] r[n]).span.from.line as int,
                    r[n].span.from.column as int,
                ) by {
                    if n > 0 {
                        assert(r[n] == rest[n - 1]);
                    }
                }
            },
        }
    }
}

/// The tokens of a text come in source order, whatever classes its
/// characters have: each starts on a line and a column counted from one
/// and ends no earlier than it starts, and each ends before the next one
/// starts, so no two overlap.
pub proof fn lemma_tokens_in_order(s: Seq<char>, k: Seq<CharClass>)
    requires
        s.len() < usize::MAX,
        lex_with(s, k) is Some,
    ensures
        tokens_in_order(lex_with(s, k)->0),
{
    lemma_from_in_order(s, k, start_state());
}

} // verus!

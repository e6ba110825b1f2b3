//! What the lexer computes, as mathematical functions on the sequence of
//! characters of the source text.
use vstd::prelude::*;

use crate::lexer::chars::{class_of, spec_is_whitespace, CharClass};
use crate::lexer::token::{Keyword, Literal, Primitive, TokenType, TokenView};
use crate::span::{Span, SpanPoint};

verus! {

/// Where the lexer stands: the index of the next character, the line and
/// column of the last character read, and whether it is inside a template
/// string (between a `{` of the string and the `}` that resumes it).
pub struct LexState {
    pub i: nat,
    pub line: nat,
    pub col: nat,
    pub tmpl: bool,
}

/// The character at `j`, if there is one.
pub open spec fn peek(s: Seq<char>, j: nat) -> Option<char> {
    if j < s.len() {
        Some(s[j as int])
    } else {
        None
    }
}

/// The span from (`l1`, `c1`) to (`l2`, `c2`).
pub open spec fn span_of(l1: nat, c1: nat, l2: nat, c2: nat) -> Span {
    Span {
        from: SpanPoint { line: l1 as usize, column: c1 as usize },
        to: SpanPoint { line: l2 as usize, column: c2 as usize },
    }
}

/// A token view of the given kind, text and span.
pub open spec fn tok(t: TokenType, lit: Seq<char>, span: Span) -> TokenView {
    TokenView { token_type: t, literal: lit, span }
}

/// Skips a block comment whose opening `/*` has been read; nested `/* */`
/// pairs are counted. Gives the index after the closing `*/` (or the end of
/// the text), and the line and column reached.
pub open spec fn scan_block(s: Seq<char>, j: nat, line: nat, col: nat, nested: nat) -> (
    nat,
    nat,
    nat,
)
    decreases s.len() - j,
{
    if j >= s.len() {
        (j, line, col)
    } else {
        let c = s[j as int];
        if c == '\n' {
            scan_block(s, j + 1, line + 1, 0, nested)
        } else if c == '/' && peek(s, j + 1) == Some('*') {
            scan_block(s, j + 2, line, col + 2, nested + 1)
        } else if c == '*' && peek(s, j + 1) == Some('/') {
            if nested > 0 {
                scan_block(s, j + 2, line, col + 2, (nested - 1) as nat)
            } else {
                (j + 2, line, col + 2)
            }
        } else {
            scan_block(s, j + 1, line, col + 1, nested)
        }
    }
}

/// Skips a line comment whose opening `//` has been read, up to (not
/// including) the next new line. Without a new line ahead it never ends.
pub open spec fn scan_line(s: Seq<char>, j: nat, col: nat) -> Option<(nat, nat)>
    decreases s.len() - j,
{
    if j >= s.len() {
        None
    } else if s[j as int] == '\n' {
        Some((j, col))
    } else {
        scan_line(s, j + 1, col + 1)
    }
}

/// What reading a quoted text gives.
pub struct QuoteScan {
    pub j: nat,
    pub line: nat,
    pub col: nat,
    pub text: Seq<char>,
    /// Whether the text stopped at an unescaped `{` (a template hole).
    pub hit_brace: bool,
}

/// Reads a quoted text up to an unescaped `quote` (or, where `brace` holds,
/// an unescaped `{`), both consumed and left out of the text. A backslash is
/// kept and escapes the character after it.
pub open spec fn scan_quoted(
    s: Seq<char>,
    j: nat,
    line: nat,
    col: nat,
    text: Seq<char>,
    escaped: bool,
    quote: char,
    brace: bool,
) -> QuoteScan
    decreases s.len() - j,
{
    if j >= s.len() {
        QuoteScan { j, line, col, text, hit_brace: false }
    } else {
        let c = s[j as int];
        if c == '\\' {
            scan_quoted(s, j + 1, line, col + 1, text.push(c), true, quote, brace)
        } else if !escaped && c == quote {
            QuoteScan { j: j + 1, line, col: col + 1, text, hit_brace: false }
        } else if !escaped && brace && c == '{' {
            QuoteScan { j: j + 1, line, col: col + 1, text, hit_brace: true }
        } else if c == '\n' {
            scan_quoted(s, j + 1, line + 1, 0, text.push(c), false, quote, brace)
        } else {
            scan_quoted(s, j + 1, line, col + 1, text.push(c), false, quote, brace)
        }
    }
}

/// Reads the rest of a number: digits, at most one `.` (kept only when a
/// digit follows it) and at most one `e` (not right after a `.`).
pub open spec fn scan_number(
    s: Seq<char>,
    k: Seq<CharClass>,
    j: nat,
    col: nat,
    text: Seq<char>,
    allow_period: bool,
    allow_e: bool,
    prev_period: bool,
) -> (nat, nat, Seq<char>)
    decreases s.len() - j,
{
    if j >= s.len() {
        (j, col, text)
    } else {
        let p = s[j as int];
        if !k[j as int].numeric {
            if p == '.' && !allow_period {
                (j, col, text)
            } else if p == 'e' && !allow_e {
                (j, col, text)
            } else if p == '.' {
                scan_number(s, k, j + 1, col, text, false, allow_e, true)
            } else if p == 'e' && !prev_period {
                scan_number(s, k, j + 1, col + 1, text.push(p), false, false, false)
            } else {
                (j, col, text)
            }
        } else {
            let text1 = if prev_period {
                text.push('.')
            } else {
                text
            };
            scan_number(s, k, j + 1, col + 1, text1.push(p), allow_period, allow_e, false)
        }
    }
}

/// Whether `c`, of classes `k`, may continue a word: alphanumeric, or `_`
/// where allowed.
pub open spec fn word_char(k: CharClass, c: char, underscore: bool) -> bool {
    k.alphanumeric || (underscore && c == '_')
}

/// Reads the rest of a word.
pub open spec fn scan_word(s: Seq<char>, k: Seq<CharClass>, j: nat, col: nat, text: Seq<char>, underscore: bool) -> (
    nat,
    nat,
    Seq<char>,
)
    decreases s.len() - j,
{
    if j < s.len() && word_char(k[j as int], s[j as int], underscore) {
        scan_word(s, k, j + 1, col + 1, text.push(s[j as int]), underscore)
    } else {
        (j, col, text)
    }
}

/// The kind of token a word that starts in lower case (or `_`) is: a
/// literal, a keyword, a primitive type, or else an identifier.
pub open spec fn word_kind(w: Seq<char>) -> TokenType {
    if w == "true"@ {
        TokenType::Literal(Literal::Bool(true))
    } else if w == "false"@ {
        TokenType::Literal(Literal::Bool(false))
    } else if w == "some"@ {
        TokenType::Literal(Literal::Option { is_some: true })
    } else if w == "none"@ {
        TokenType::Literal(Literal::Option { is_some: false })
    } else if w == "ok"@ {
        TokenType::Literal(Literal::Result { is_ok: true })
    } else if w == "err"@ {
        TokenType::Literal(Literal::Result { is_ok: false })
    } else if w == "use"@ {
        TokenType::Keyword(Keyword::Use)
    } else if w == "from"@ {
        TokenType::Keyword(Keyword::From)
    } else if w == "pub"@ {
        TokenType::Keyword(Keyword::Pub)
    } else if w == "static"@ {
        TokenType::Keyword(Keyword::Static)
    } else if w == "fn"@ {
        TokenType::Keyword(Keyword::Fn)
    } else if w == "let"@ {
        TokenType::Keyword(Keyword::Let)
    } else if w == "const"@ {
        TokenType::Keyword(Keyword::Const)
    } else if w == "struct"@ {
        TokenType::Keyword(Keyword::Struct)
    } else if w == "contract"@ {
        TokenType::Keyword(Keyword::Contract)
    } else if w == "enum"@ {
        TokenType::Keyword(Keyword::Enum)
    } else if w == "type"@ {
        TokenType::Keyword(Keyword::Type)
    } else if w == "alias"@ {
        TokenType::Keyword(Keyword::Alias)
    } else if w == "errors"@ {
        TokenType::Keyword(Keyword::Errors)
    } else if w == "self"@ {
        TokenType::Keyword(Keyword::Self_)
    } else if w == "construct"@ {
        TokenType::Keyword(Keyword::Construct)
    } else if w == "impl"@ {
        TokenType::Keyword(Keyword::Impl)
    } else if w == "return"@ {
        TokenType::Keyword(Keyword::Return)
    } else if w == "yield"@ {
        TokenType::Keyword(Keyword::Yield)
    } else if w == "if"@ {
        TokenType::Keyword(Keyword::If)
    } else if w == "not"@ {
        TokenType::Keyword(Keyword::Not)
    } else if w == "or"@ {
        TokenType::Keyword(Keyword::Or)
    } else if w == "and"@ {
        TokenType::Keyword(Keyword::And)
    } else if w == "else"@ {
        TokenType::Keyword(Keyword::Else)
    } else if w == "match"@ {
        TokenType::Keyword(Keyword::Match)
    } else if w == "is"@ {
        TokenType::Keyword(Keyword::Is)
    } else if w == "loop"@ {
        TokenType::Keyword(Keyword::Loop)
    } else if w == "while"@ {
        TokenType::Keyword(Keyword::While)
    } else if w == "for"@ {
        TokenType::Keyword(Keyword::For)
    } else if w == "in"@ {
        TokenType::Keyword(Keyword::In)
    } else if w == "safe"@ {
        TokenType::Keyword(Keyword::Safe)
    } else if w == "async"@ {
        TokenType::Keyword(Keyword::Async)
    } else if w == "await"@ {
        TokenType::Keyword(Keyword::Await)
    } else if w == "bool"@ {
        TokenType::Primitive(Primitive::Bool)
    } else if w == "bit"@ {
        TokenType::Primitive(Primitive::Bit)
    } else if w == "byte"@ {
        TokenType::Primitive(Primitive::Byte)
    } else if w == "uint"@ {
        TokenType::Primitive(Primitive::Uint)
    } else if w == "uint8"@ {
        TokenType::Primitive(Primitive::Uint8)
    } else if w == "uint16"@ {
        TokenType::Primitive(Primitive::Uint16)
    } else if w == "uint32"@ {
        TokenType::Primitive(Primitive::Uint32)
    } else if w == "uint64"@ {
        TokenType::Primitive(Primitive::Uint64)
    } else if w == "uint128"@ {
        TokenType::Primitive(Primitive::Uint128)
    } else if w == "biguint"@ {
        TokenType::Primitive(Primitive::BigUint)
    } else if w == "int"@ {
        TokenType::Primitive(Primitive::Int)
    } else if w == "int8"@ {
        TokenType::Primitive(Primitive::Int8)
    } else if w == "int16"@ {
        TokenType::Primitive(Primitive::Int16)
    } else if w == "int32"@ {
        TokenType::Primitive(Primitive::Int32)
    } else if w == "int64"@ {
        TokenType::Primitive(Primitive::Int64)
    } else if w == "int128"@ {
        TokenType::Primitive(Primitive::Int128)
    } else if w == "bigint"@ {
        TokenType::Primitive(Primitive::BigInt)
    } else if w == "float"@ {
        TokenType::Primitive(Primitive::Float)
    } else if w == "float32"@ {
        TokenType::Primitive(Primitive::Float32)
    } else if w == "float64"@ {
        TokenType::Primitive(Primitive::Float64)
    } else if w == "bignum"@ {
        TokenType::Primitive(Primitive::BigNum)
    } else if w == "char"@ {
        TokenType::Primitive(Primitive::Char)
    } else if w == "string"@ {
        TokenType::Primitive(Primitive::String)
    } else {
        TokenType::Identifier
    }
}

/// The kind of the one-character token `c`, if it is one.
pub open spec fn single_kind(c: char) -> Option<TokenType> {
    if c == '{' {
        Some(TokenType::OpenBrace)
    } else if c == '}' {
        Some(TokenType::CloseBrace)
    } else if c == '[' {
        Some(TokenType::OpenBracket)
    } else if c == ']' {
        Some(TokenType::CloseBracket)
    } else if c == '(' {
        Some(TokenType::OpenParenthesis)
    } else if c == ')' {
        Some(TokenType::CloseParenthesis)
    } else if c == ',' {
        Some(TokenType::Comma)
    } else if c == ';' {
        Some(TokenType::Semicolon)
    } else if c == ':' {
        Some(TokenType::Colon)
    } else if c == '~' {
        Some(TokenType::Tilde)
    } else if c == '?' {
        Some(TokenType::QuestionMark)
    } else if c == '.' {
        Some(TokenType::Period)
    } else if c == '=' {
        Some(TokenType::Equals)
    } else if c == '!' {
        Some(TokenType::ExclamationMark)
    } else if c == '&' {
        Some(TokenType::Ampersand)
    } else if c == '|' {
        Some(TokenType::Pipe)
    } else if c == '<' {
        Some(TokenType::LessThan)
    } else if c == '>' {
        Some(TokenType::GreaterThan)
    } else if c == '+' {
        Some(TokenType::Plus)
    } else if c == '-' {
        Some(TokenType::Minus)
    } else if c == '*' {
        Some(TokenType::Asterisk)
    } else if c == '/' {
        Some(TokenType::ForwardSlash)
    } else if c == '%' {
        Some(TokenType::Percent)
    } else if c == '$' {
        Some(TokenType::Dollar)
    } else if c == '^' {
        Some(TokenType::Caret)
    } else if c == '@' {
        Some(TokenType::At)
    } else if c == '#' {
        Some(TokenType::Pound)
    } else {
        None
    }
}

/// The kind of the two-character token `c` `d`, if it is one.
pub open spec fn pair_kind(c: char, d: char) -> Option<TokenType> {
    if c == ':' && d == ':' {
        Some(TokenType::DoubleColon)
    } else if c == '?' && d == '?' {
        Some(TokenType::DoubleQuestionMark)
    } else if c == '?' && d == '.' {
        Some(TokenType::QuestionMarkPeriod)
    } else if c == '.' && d == '.' {
        Some(TokenType::DoublePeriod)
    } else if c == '=' && d == '=' {
        Some(TokenType::DoubleEquals)
    } else if c == '=' && d == '>' {
        Some(TokenType::FatArrow)
    } else if c == '!' && d == '=' {
        Some(TokenType::NotEquals)
    } else if c == '&' && d == '&' {
        Some(TokenType::DoubleAmpersand)
    } else if c == '|' && d == '|' {
        Some(TokenType::DoublePipe)
    } else if c == '<' && d == '=' {
        Some(TokenType::LessThanEquals)
    } else if c == '>' && d == '=' {
        Some(TokenType::GreaterThanEquals)
    } else if c == '+' && d == '=' {
        Some(TokenType::PlusEquals)
    } else if c == '-' && d == '=' {
        Some(TokenType::MinusEquals)
    } else if c == '-' && d == '>' {
        Some(TokenType::SkinnyArrow)
    } else if c == '*' && d == '=' {
        Some(TokenType::AsteriskEquals)
    } else if c == '*' && d == '@' {
        Some(TokenType::AsteriskAt)
    } else if c == '/' && d == '=' {
        Some(TokenType::ForwardSlashEquals)
    } else if c == '%' && d == '=' {
        Some(TokenType::PercentEquals)
    } else if c == '%' && d == '{' {
        Some(TokenType::PercentOpenBrace)
    } else if c == '%' && d == '[' {
        Some(TokenType::PercentOpenBracket)
    } else if c == '^' && d == '=' {
        Some(TokenType::CaretEquals)
    } else {
        None
    }
}

/// The operator or delimiter token that starts at `i` (whose character sits
/// at column `col1`), with the index after it; `None` if the character
/// starts no token.
pub open spec fn punct_token(s: Seq<char>, i: nat, line: nat, col1: nat) -> Option<(TokenView, nat)> {
    let c = s[i as int];
    if c == '.' && peek(s, i + 1) == Some('.') && peek(s, i + 2) == Some('=') {
        Some(
            (
                tok(TokenType::DoublePeriodEquals, seq!['.', '.', '='], span_of(line, col1, line, col1 + 2)),
                i + 3,
            ),
        )
    } else if i + 1 < s.len() && pair_kind(c, s[i + 1 as int]) is Some {
        Some(
            (
                tok(pair_kind(c, s[i + 1 as int])->0, seq![c, s[i + 1 as int]], span_of(line, col1, line, col1 + 1)),
                i + 2,
            ),
        )
    } else if single_kind(c) is Some {
        Some((tok(single_kind(c)->0, seq![c], span_of(line, col1, line, col1)), i + 1))
    } else {
        None
    }
}

/// One step of the lexer at a state where a character is left: the token
/// it gives, if any, and the next state; `None` where the lexer cannot go
/// on (a character that starts no token, or a line comment that no new
/// line ends).
pub open spec fn lex_step(s: Seq<char>, k: Seq<CharClass>, st: LexState) -> Option<(Option<TokenView>, LexState)> {
    let i = st.i;
    let kc = k[i as int];
    let line = st.line;
    let c = s[i as int];
    let col1 = st.col + 1;
    let next = peek(s, i + 1);
    if c == '\n' {
        Some((None, LexState { i: i + 1, line: line + 1, col: 0, tmpl: st.tmpl }))
    } else if kc.whitespace {
        Some((None, LexState { i: i + 1, line, col: col1, tmpl: st.tmpl }))
    } else if c == '/' && next == Some('*') {
        let (j, l, cc) = scan_block(s, i + 2, line, col1 + 1, 0);
        Some((None, LexState { i: j, line: l, col: cc, tmpl: st.tmpl }))
    } else if c == '/' && next == Some('/') {
        match scan_line(s, i + 2, col1 + 1) {
            None => None,
            Some((j, cc)) => Some((None, LexState { i: j, line, col: cc, tmpl: st.tmpl })),
        }
    } else if c == '"' {
        let q = scan_quoted(s, i + 1, line, col1, Seq::empty(), false, '"', true);
        let kind = if q.hit_brace {
            TokenType::TemplateStringStart
        } else {
            TokenType::Literal(Literal::String)
        };
        Some(
            (
                Some(tok(kind, q.text, span_of(line, col1, q.line, q.col))),
                LexState { i: q.j, line: q.line, col: q.col, tmpl: q.hit_brace || st.tmpl },
            ),
        )
    } else if c == '}' && st.tmpl {
        let q = scan_quoted(s, i + 1, line, col1, Seq::empty(), false, '"', true);
        let kind = if q.hit_brace {
            TokenType::TemplateStringMiddle
        } else {
            TokenType::TemplateStringEnd
        };
        Some(
            (
                Some(tok(kind, q.text, span_of(line, col1, q.line, q.col))),
                LexState { i: q.j, line: q.line, col: q.col, tmpl: q.hit_brace },
            ),
        )
    } else if c == '\'' {
        let q = scan_quoted(s, i + 1, line, col1, Seq::empty(), true, '\'', false);
        Some(
            (
                Some(tok(TokenType::Literal(Literal::Char), q.text, span_of(line, col1, q.line, q.col))),
                LexState { i: q.j, line: q.line, col: q.col, tmpl: st.tmpl },
            ),
        )
    } else if kc.numeric {
        let (j, cc, text) = scan_number(s, k, i + 1, col1, seq![c], true, true, false);
        Some(
            (
                Some(tok(TokenType::Literal(Literal::Number), text, span_of(line, col1, line, cc))),
                LexState { i: j, line, col: cc, tmpl: st.tmpl },
            ),
        )
    } else if kc.uppercase {
        let (j, cc, text) = scan_word(s, k, i + 1, col1, seq![c], false);
        Some(
            (
                Some(tok(TokenType::TypeName, text, span_of(line, col1, line, cc))),
                LexState { i: j, line, col: cc, tmpl: st.tmpl },
            ),
        )
    } else if kc.alphabetic || c == '_' {
        let (j, cc, text) = scan_word(s, k, i + 1, col1, seq![c], true);
        Some(
            (
                Some(tok(word_kind(text), text, span_of(line, col1, line, cc))),
                LexState { i: j, line, col: cc, tmpl: st.tmpl },
            ),
        )
    } else {
        match punct_token(s, i, line, col1) {
            None => None,
            Some((t, j)) => Some(
                (
                    Some(t),
                    LexState { i: j, line, col: (col1 + (j - i - 1)) as nat, tmpl: st.tmpl },
                ),
            ),
        }
    }
}

/// `a` followed by `o`'s tokens, if `o` has any.
pub open spec fn prepend(a: Seq<TokenView>, o: Option<Seq<TokenView>>) -> Option<Seq<TokenView>> {
    match o {
        Some(r) => Some(a + r),
        None => None,
    }
}

/// The optional token of a step, as a sequence of zero or one tokens.
pub open spec fn opt_seq(t: Option<TokenView>) -> Seq<TokenView> {
    match t {
        Some(t) => seq![t],
        None => Seq::empty(),
    }
}

/// The tokens the lexer gives from state `st` to the end of the text;
/// `None` where it cannot go on.
pub open spec fn lex_from(s: Seq<char>, k: Seq<CharClass>, st: LexState) -> Option<Seq<TokenView>>
    decreases s.len() - st.i,
{
    if st.i >= s.len() {
        Some(Seq::empty())
    } else {
        match lex_step(s, k, st) {
            None => None,
            Some((t, next)) => {
                proof {
                    lemma_step_advances(s, k, st);
                }
                prepend(opt_seq(t), lex_from(s, k, next))
            },
        }
    }
}

/// The classes of each character of `s`, in order.
pub open spec fn classes_of(s: Seq<char>) -> Seq<CharClass> {
    Seq::new(s.len(), |j: int| class_of(s[j]))
}

/// Where the lexer starts: before the first character, on line one.
pub open spec fn start_state() -> LexState {
    LexState { i: 0, line: 1, col: 0, tmpl: false }
}

/// The tokens of the text `s` whose characters have the classes `k`;
/// `None` where the lexer cannot go on.
pub open spec fn lex_with(s: Seq<char>, k: Seq<CharClass>) -> Option<Seq<TokenView>> {
    lex_from(s, k, start_state())
}

/// The tokens of the text `s`; `None` where the lexer cannot go on.
pub open spec fn spec_lex(s: Seq<char>) -> Option<Seq<TokenView>> {
    lex_with(s, classes_of(s))
}

proof fn lemma_scan_block_advances(s: Seq<char>, j: nat, line: nat, col: nat, nested: nat)
    requires
        j <= s.len(),
    ensures
        j <= scan_block(s, j, line, col, nested).0 <= s.len(),
    decreases s.len() - j,
{
    if j < s.len() {
        let c = s[j as int];
        if c == '\n' {
            lemma_scan_block_advances(s, j + 1, line + 1, 0, nested);
        } else if c == '/' && peek(s, j + 1) == Some('*') {
            lemma_scan_block_advances(s, j + 2, line, col + 2, nested + 1);
        } else if c == '*' && peek(s, j + 1) == Some('/') {
            if nested > 0 {
                lemma_scan_block_advances(s, j + 2, line, col + 2, (nested - 1) as nat);
            }
        } else {
            lemma_scan_block_advances(s, j + 1, line, col + 1, nested);
        }
    }
}

proof fn lemma_scan_line_advances(s: Seq<char>, j: nat, col: nat)
    ensures
        scan_line(s, j, col) matches Some((k, _)) ==> j <= k < s.len(),
    decreases s.len() - j,
{
    if j < s.len() && s[j as int] != '\n' {
        lemma_scan_line_advances(s, j + 1, col + 1);
    }
}

proof fn lemma_scan_quoted_advances(
    s: Seq<char>,
    j: nat,
    line: nat,
    col: nat,
    text: Seq<char>,
    escaped: bool,
    quote: char,
    brace: bool,
)
    requires
        j <= s.len(),
    ensures
        j <= scan_quoted(s, j, line, col, text, escaped, quote, brace).j <= s.len(),
    decreases s.len() - j,
{
    if j < s.len() {
        let c = s[j as int];
        if c == '\\' {
            lemma_scan_quoted_advances(s, j + 1, line, col + 1, text.push(c), true, quote, brace);
        } else if !escaped && c == quote {
        } else if !escaped && brace && c == '{' {
        } else if c == '\n' {
            lemma_scan_quoted_advances(s, j + 1, line + 1, 0, text.push(c), false, quote, brace);
        } else {
            lemma_scan_quoted_advances(s, j + 1, line, col + 1, text.push(c), false, quote, brace);
        }
    }
}

proof fn lemma_scan_number_advances(
    s: Seq<char>,
    k: Seq<CharClass>,
    j: nat,
    col: nat,
    text: Seq<char>,
    ap: bool,
    ae: bool,
    pp: bool,
)
    requires
        j <= s.len(),
    ensures
        j <= scan_number(s, k, j, col, text, ap, ae, pp).0 <= s.len(),
    decreases s.len() - j,
{
    if j < s.len() {
        let p = s[j as int];
        if !k[j as int].numeric {
            if p == '.' && !ap {
            } else if p == 'e' && !ae {
            } else if p == '.' {
                lemma_scan_number_advances(s, k, j + 1, col, text, false, ae, true);
            } else if p == 'e' && !pp {
                lemma_scan_number_advances(s, k, j + 1, col + 1, text.push(p), false, false, false);
            }
        } else {
            let text1 = if pp {
                text.push('.')
            } else {
                text
            };
            lemma_scan_number_advances(s, k, j + 1, col + 1, text1.push(p), ap, ae, false);
        }
    }
}

proof fn lemma_scan_word_advances(s: Seq<char>, k: Seq<CharClass>, j: nat, col: nat, text: Seq<char>, u: bool)
    requires
        j <= s.len(),
    ensures
        j <= scan_word(s, k, j, col, text, u).0 <= s.len(),
    decreases s.len() - j,
{
    if j < s.len() && word_char(k[j as int], s[j as int], u) {
        lemma_scan_word_advances(s, k, j + 1, col + 1, text.push(s[j as int]), u);
    }
}

/// A step of the lexer consumes at least one character and stays within
/// the text.
pub proof fn lemma_step_advances(s: Seq<char>, k: Seq<CharClass>, st: LexState)
    requires
        st.i < s.len(),
    ensures
        lex_step(s, k, st) matches Some((_, next)) ==> st.i < next.i <= s.len(),
{
    let i = st.i;
    let c = s[i as int];
    let kc = k[i as int];
    let col1 = st.col + 1;
    let next = peek(s, i + 1);
    if c == '\n' {
    } else if kc.whitespace {
    } else if c == '/' && next == Some('*') {
        lemma_scan_block_advances(s, i + 2, st.line, col1 + 1, 0);
    } else if c == '/' && next == Some('/') {
        lemma_scan_line_advances(s, i + 2, col1 + 1);
    } else if c == '"' || (c == '}' && st.tmpl) {
        lemma_scan_quoted_advances(s, i + 1, st.line, col1, Seq::empty(), false, '"', true);
    } else if c == '\'' {
        lemma_scan_quoted_advances(s, i + 1, st.line, col1, Seq::empty(), true, '\'', false);
    } else if kc.numeric {
        lemma_scan_number_advances(s, k, i + 1, col1, seq![c], true, true, false);
    } else if kc.uppercase {
        lemma_scan_word_advances(s, k, i + 1, col1, seq![c], false);
    } else if kc.alphabetic || c == '_' {
        lemma_scan_word_advances(s, k, i + 1, col1, seq![c], true);
    }
}

/// From a state on, a text of line breaks and white space gives no
/// tokens.
proof fn lemma_blank_from(s: Seq<char>, k: Seq<CharClass>, st: LexState)
    requires
        forall|j: int| st.i <= j < s.len() ==> s[j] == '\n' || (#[trigger] k[j]).whitespace,
    ensures
        lex_from(s, k, st) == Some(Seq::<TokenView>::empty()),
    decreases s.len() - st.i,
{
    if st.i < s.len() {
        let c = s[st.i as int];
        assert(c == '\n' || k[st.i as int].whitespace);
        lemma_step_advances(s, k, st);
        let step = lex_step(s, k, st)->0;
        let next = step.1;
        lemma_blank_from(s, k, next);
        assert(opt_seq(None) + Seq::<TokenView>::empty() =~= Seq::<TokenView>::empty());
    }
}

/// A text of line breaks and white space lexes to no tokens.
pub proof fn lemma_blank_text_no_tokens(s: Seq<char>)
    requires
        forall|j: int| 0 <= j < s.len() ==> s[j] == '\n' || spec_is_whitespace(#[trigger] s[j]),
    ensures
        spec_lex(s) == Some(Seq::<TokenView>::empty()),
{
    let k = classes_of(s);
    assert forall|j: int| 0 <= j < s.len() implies s[j] == '\n' || (#[trigger] k[j]).whitespace by {
        assert(k[j] == class_of(s[j]));
    }
    lemma_blank_from(s, k, start_state());
}

} // verus!

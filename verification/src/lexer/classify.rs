//! Classifying words and operators into kinds of token.
use vstd::prelude::*;

use crate::lexer::chars::push_char;
use crate::lexer::laws::{
    keyword_text, lemma_literal_words, lemma_other_words_are_names, lemma_primitive_names,
    lemma_reserved_words_are_keywords, literal_word, primitive_text,
};
use crate::lexer::spec::{pair_kind, single_kind, word_kind};
use crate::lexer::token::{Keyword, Literal, Primitive, TokenType};
use vstd::string::StringExecFns;

verus! {

/// Whether the text of `w` is the text of `lit`.
fn is_word(w: &String, lit: &str) -> (b: bool)
    ensures
        b == (w@ == lit@),
{
    *w == String::from_str(lit)
}

/// The kind of token a word that starts in lower case (or `_`) is; a
/// reserved word (but `mut`) is its keyword.
pub fn exec_word_kind(w: &String) -> (t: TokenType)
    ensures
        t == word_kind(w@),
        forall|k: Keyword| k != Keyword::Mut && w@ == keyword_text(k) ==> t == TokenType::Keyword(k),
        forall|p: Primitive| w@ == primitive_text(p) ==> t == TokenType::Primitive(p),
        forall|l: Literal| literal_word(l) == Some(w@) ==> t == TokenType::Literal(l),
        (forall|k: Keyword| k != Keyword::Mut ==> w@ != #[trigger] keyword_text(k)) && (forall|p: Primitive|
            w@ != #[trigger] primitive_text(p)) && (forall|l: Literal| literal_word(l) != Some(w@)) ==> t
            == TokenType::Identifier,
{
    proof {
        assert forall|k: Keyword| k != Keyword::Mut && w@ == keyword_text(k) implies word_kind(w@)
            == TokenType::Keyword(k) by {
            lemma_reserved_words_are_keywords(k);
        }
        assert forall|p: Primitive| w@ == primitive_text(p) implies word_kind(w@) == TokenType::Primitive(p) by {
            lemma_primitive_names(p);
        }
        assert forall|l: Literal| literal_word(l) == Some(w@) implies word_kind(w@) == TokenType::Literal(l) by {
            lemma_literal_words(l);
        }
        if (forall|k: Keyword| k != Keyword::Mut ==> w@ != #[trigger] keyword_text(k)) && (forall|p: Primitive|
            w@ != #[trigger] primitive_text(p)) && (forall|l: Literal| literal_word(l) != Some(w@)) {
            lemma_other_words_are_names(w@);
        }
    }
    if is_word(w, "true") {
        TokenType::Literal(Literal::Bool(true))
    } else if is_word(w, "false") {
        TokenType::Literal(Literal::Bool(false))
    } else if is_word(w, "some") {
        TokenType::Literal(Literal::Option { is_some: true })
    } else if is_word(w, "none") {
        TokenType::Literal(Literal::Option { is_some: false })
    } else if is_word(w, "ok") {
        TokenType::Literal(Literal::Result { is_ok: true })
    } else if is_word(w, "err") {
        TokenType::Literal(Literal::Result { is_ok: false })
    } else if is_word(w, "use") {
        TokenType::Keyword(Keyword::Use)
    } else if is_word(w, "from") {
        TokenType::Keyword(Keyword::From)
    } else if is_word(w, "pub") {
        TokenType::Keyword(Keyword::Pub)
    } else if is_word(w, "static") {
        TokenType::Keyword(Keyword::Static)
    } else if is_word(w, "fn") {
        TokenType::Keyword(Keyword::Fn)
    } else if is_word(w, "let") {
        TokenType::Keyword(Keyword::Let)
    } else if is_word(w, "const") {
        TokenType::Keyword(Keyword::Const)
    } else if is_word(w, "struct") {
        TokenType::Keyword(Keyword::Struct)
    } else if is_word(w, "contract") {
        TokenType::Keyword(Keyword::Contract)
    } else if is_word(w, "enum") {
        TokenType::Keyword(Keyword::Enum)
    } else if is_word(w, "type") {
        TokenType::Keyword(Keyword::Type)
    } else if is_word(w, "alias") {
        TokenType::Keyword(Keyword::Alias)
    } else if is_word(w, "errors") {
        TokenType::Keyword(Keyword::Errors)
    } else if is_word(w, "self") {
        TokenType::Keyword(Keyword::Self_)
    } else if is_word(w, "construct") {
        TokenType::Keyword(Keyword::Construct)
    } else if is_word(w, "impl") {
        TokenType::Keyword(Keyword::Impl)
    } else if is_word(w, "return") {
        TokenType::Keyword(Keyword::Return)
    } else if is_word(w, "yield") {
        TokenType::Keyword(Keyword::Yield)
    } else if is_word(w, "if") {
        TokenType::Keyword(Keyword::If)
    } else if is_word(w, "not") {
        TokenType::Keyword(Keyword::Not)
    } else if is_word(w, "or") {
        TokenType::Keyword(Keyword::Or)
    } else if is_word(w, "and") {
        TokenType::Keyword(Keyword::And)
    } else if is_word(w, "else") {
        TokenType::Keyword(Keyword::Else)
    } else if is_word(w, "match") {
        TokenType::Keyword(Keyword::Match)
    } else if is_word(w, "is") {
        TokenType::Keyword(Keyword::Is)
    } else if is_word(w, "loop") {
        TokenType::Keyword(Keyword::Loop)
    } else if is_word(w, "while") {
        TokenType::Keyword(Keyword::While)
    } else if is_word(w, "for") {
        TokenType::Keyword(Keyword::For)
    } else if is_word(w, "in") {
        TokenType::Keyword(Keyword::In)
    } else if is_word(w, "safe") {
        TokenType::Keyword(Keyword::Safe)
    } else if is_word(w, "async") {
        TokenType::Keyword(Keyword::Async)
    } else if is_word(w, "await") {
        TokenType::Keyword(Keyword::Await)
    } else if is_word(w, "bool") {
        TokenType::Primitive(Primitive::Bool)
    } else if is_word(w, "bit") {
        TokenType::Primitive(Primitive::Bit)
    } else if is_word(w, "byte") {
        TokenType::Primitive(Primitive::Byte)
    } else if is_word(w, "uint") {
        TokenType::Primitive(Primitive::Uint)
    } else if is_word(w, "uint8") {
        TokenType::Primitive(Primitive::Uint8)
    } else if is_word(w, "uint16") {
        TokenType::Primitive(Primitive::Uint16)
    } else if is_word(w, "uint32") {
        TokenType::Primitive(Primitive::Uint32)
    } else if is_word(w, "uint64") {
        TokenType::Primitive(Primitive::Uint64)
    } else if is_word(w, "uint128") {
        TokenType::Primitive(Primitive::Uint128)
    } else if is_word(w, "biguint") {
        TokenType::Primitive(Primitive::BigUint)
    } else if is_word(w, "int") {
        TokenType::Primitive(Primitive::Int)
    } else if is_word(w, "int8") {
        TokenType::Primitive(Primitive::Int8)
    } else if is_word(w, "int16") {
        TokenType::Primitive(Primitive::Int16)
    } else if is_word(w, "int32") {
        TokenType::Primitive(Primitive::Int32)
    } else if is_word(w, "int64") {
        TokenType::Primitive(Primitive::Int64)
    } else if is_word(w, "int128") {
        TokenType::Primitive(Primitive::Int128)
    } else if is_word(w, "bigint") {
        TokenType::Primitive(Primitive::BigInt)
    } else if is_word(w, "float") {
        TokenType::Primitive(Primitive::Float)
    } else if is_word(w, "float32") {
        TokenType::Primitive(Primitive::Float32)
    } else if is_word(w, "float64") {
        TokenType::Primitive(Primitive::Float64)
    } else if is_word(w, "bignum") {
        TokenType::Primitive(Primitive::BigNum)
    } else if is_word(w, "char") {
        TokenType::Primitive(Primitive::Char)
    } else if is_word(w, "string") {
        TokenType::Primitive(Primitive::String)
    } else {
        TokenType::Identifier
    }
}


/// The kind of the one-character token `c`, if it is one.
pub fn exec_single_kind(c: char) -> (t: Option<TokenType>)
    ensures
        t == single_kind(c),
{
    if c == '{' {
        Some(TokenType::OpenBrace)
    } else if c == '}' {
        Some(TokenType::CloseBrace)
    } else if c == '[' {
        Some(TokenType::OpenBracket)
    } else if c == ']' {
        Some(TokenType::CloseBracket)
    } else if c == '(' {
        Some(TokenType::OpenParenthesis)
    } else if c == ')' {
        Some(TokenType::CloseParenthesis)
    } else if c == ',' {
        Some(TokenType::Comma)
    } else if c == ';' {
        Some(TokenType::Semicolon)
    } else if c == ':' {
        Some(TokenType::Colon)
    } else if c == '~' {
        Some(TokenType::Tilde)
    } else if c == '?' {
        Some(TokenType::QuestionMark)
    } else if c == '.' {
        Some(TokenType::Period)
    } else if c == '=' {
        Some(TokenType::Equals)
    } else if c == '!' {
        Some(TokenType::ExclamationMark)
    } else if c == '&' {
        Some(TokenType::Ampersand)
    } else if c == '|' {
        Some(TokenType::Pipe)
    } else if c == '<' {
        Some(TokenType::LessThan)
    } else if c == '>' {
        Some(TokenType::GreaterThan)
    } else if c == '+' {
        Some(TokenType::Plus)
    } else if c == '-' {
        Some(TokenType::Minus)
    } else if c == '*' {
        Some(TokenType::Asterisk)
    } else if c == '/' {
        Some(TokenType::ForwardSlash)
    } else if c == '%' {
        Some(TokenType::Percent)
    } else if c == '$' {
        Some(TokenType::Dollar)
    } else if c == '^' {
        Some(TokenType::Caret)
    } else if c == '@' {
        Some(TokenType::At)
    } else if c == '#' {
        Some(TokenType::Pound)
    } else {
        None
    }
}

/// The kind of the two-character token `c` `d`, if it is one.
pub fn exec_pair_kind(c: char, d: char) -> (t: Option<TokenType>)
    ensures
        t == pair_kind(c, d),
{
    if c == ':' && d == ':' {
        Some(TokenType::DoubleColon)
    } else if c == '?' && d == '?' {
        Some(TokenType::DoubleQuestionMark)
    } else if c == '?' && d == '.' {
        Some(TokenType::QuestionMarkPeriod)
    } else if c == '.' && d == '.' {
        Some(TokenType::DoublePeriod)
    } else if c == '=' && d == '=' {
        Some(TokenType::DoubleEquals)
    } else if c == '=' && d == '>' {
        Some(TokenType::FatArrow)
    } else if c == '!' && d == '=' {
        Some(TokenType::NotEquals)
    } else if c == '&' && d == '&' {
        Some(TokenType::DoubleAmpersand)
    } else if c == '|' && d == '|' {
        Some(TokenType::DoublePipe)
    } else if c == '<' && d == '=' {
        Some(TokenType::LessThanEquals)
    } else if c == '>' && d == '=' {
        Some(TokenType::GreaterThanEquals)
    } else if c == '+' && d == '=' {
        Some(TokenType::PlusEquals)
    } else if c == '-' && d == '=' {
        Some(TokenType::MinusEquals)
    } else if c == '-' && d == '>' {
        Some(TokenType::SkinnyArrow)
    } else if c == '*' && d == '=' {
        Some(TokenType::AsteriskEquals)
    } else if c == '*' && d == '@' {
        Some(TokenType::AsteriskAt)
    } else if c == '/' && d == '=' {
        Some(TokenType::ForwardSlashEquals)
    } else if c == '%' && d == '=' {
        Some(TokenType::PercentEquals)
    } else if c == '%' && d == '{' {
        Some(TokenType::PercentOpenBrace)
    } else if c == '%' && d == '[' {
        Some(TokenType::PercentOpenBracket)
    } else if c == '^' && d == '=' {
        Some(TokenType::CaretEquals)
    } else {
        None
    }
}

/// A string of the characters of `cs`.
pub fn string_of(cs: &[char]) -> (s: String)
    ensures
        s@ == cs@,
{
    let mut s = String::new();
    let mut k: usize = 0;
    while k < cs.len()
        invariant
            k <= cs@.len(),
            s@ == cs@.take(k as int),
        decreases cs@.len() - k,
    {
        push_char(&mut s, cs[k]);
        k = k + 1;
        assert(s@ =~= cs@.take(k as int));
    }
    assert(cs@.take(cs@.len() as int) =~= cs@);
    s
}

} // verus!

//! Tokens: the kinds of token the lexer produces and the token itself.
use vstd::prelude::*;

use crate::span::Span;

verus! {

/// Reserved words of the language.
#[derive(Clone, Copy, Debug, PartialEq, Eq, Structural)]
pub enum Keyword {
    Use,
    From,
    Pub,
    Static,
    Fn,
    Let,
    Const,
    Mut,
    Struct,
    Contract,
    Enum,
    Type,
    Alias,
    Errors,
    Self_,
    Construct,
    Impl,
    Return,
    Yield,
    If,
    Not,
    Or,
    And,
    Else,
    Match,
    Is,
    Loop,
    While,
    For,
    In,
    Safe,
    Async,
    Await,
}

/// The kinds of literal a token can be.
#[derive(Clone, Copy, Debug, PartialEq, Eq, Structural)]
pub enum Literal {
    String,
    Char,
    Number,
    Bool(bool),
    Result { is_ok: bool },
    Option { is_some: bool },
}

/// Names of primitive types.
#[derive(Clone, Copy, Debug, PartialEq, Eq, Structural)]
pub enum Primitive {
    Bool,
    Bit,
    Byte,
    Uint8,
    Uint16,
    Uint32,
    Uint64,
    Uint128,
    Uint,
    BigUint,
    Int8,
    Int16,
    Int32,
    Int64,
    Int128,
    Int,
    BigInt,
    Float32,
    Float64,
    Float,
    BigNum,
    Char,
    String,
}

/// The kind of a token.
#[derive(Clone, Copy, Debug, PartialEq, Eq, Structural)]
pub enum TokenType {
    Literal(Literal),
    Keyword(Keyword),
    Primitive(Primitive),
    /// A word that starts with a lowercase letter or `_`.
    Identifier,
    /// A word that starts with an uppercase letter.
    TypeName,
    TemplateStringStart,
    TemplateStringMiddle,
    TemplateStringEnd,
    OpenBrace,
    CloseBrace,
    OpenBracket,
    CloseBracket,
    OpenParenthesis,
    CloseParenthesis,
    Comma,
    Semicolon,
    Colon,
    DoubleColon,
    Tilde,
    QuestionMark,
    DoubleQuestionMark,
    QuestionMarkPeriod,
    Period,
    DoublePeriod,
    DoublePeriodEquals,
    Equals,
    DoubleEquals,
    FatArrow,
    ExclamationMark,
    NotEquals,
    Ampersand,
    DoubleAmpersand,
    Pipe,
    DoublePipe,
    LessThan,
    LessThanEquals,
    GreaterThan,
    GreaterThanEquals,
    Plus,
    PlusEquals,
    Minus,
    MinusEquals,
    SkinnyArrow,
    Asterisk,
    AsteriskEquals,
    AsteriskAt,
    ForwardSlash,
    ForwardSlashEquals,
    Percent,
    PercentEquals,
    PercentOpenBrace,
    PercentOpenBracket,
    Dollar,
    Caret,
    CaretEquals,
    At,
    Pound,
}

/// A token: its kind, the text it stands for, and where it is.
#[derive(Debug)]
pub struct Token {
    pub token_type: TokenType,
    pub literal: String,
    pub span: Span,
}

/// A token as a mathematical value: its text is a sequence of characters.
pub struct TokenView {
    pub token_type: TokenType,
    pub literal: Seq<char>,
    pub span: Span,
}

impl View for Token {
    type V = TokenView;

    open spec fn view(&self) -> TokenView {
        TokenView { token_type: self.token_type, literal: self.literal@, span: self.span }
    }
}

impl Token {
    /// A token of the given kind, text and span.
    pub fn new(token_type: TokenType, literal: String, span: Span) -> (t: Token)
        ensures
            t.token_type == token_type,
            t.literal@ == literal@,
            t.span == span,
    {
        Token { token_type, literal, span }
    }

    /// A copy of this token.
    pub fn duplicate(&self) -> (t: Token)
        ensures
            t@ == self@,
    {
        Token { token_type: self.token_type, literal: self.literal.clone(), span: self.span }
    }
}

/// The views of a sequence of tokens.
pub open spec fn token_views(ts: Seq<Token>) -> Seq<TokenView> {
    ts.map_values(|t: Token| t@)
}

} // verus!

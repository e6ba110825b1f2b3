//! Turning tokens into a syntax tree.
pub mod ast;
pub mod copy;
pub mod expr;
pub mod items;
pub mod laws;
pub mod normalize;
pub mod spec;
pub mod stmt;
pub mod types;
pub mod uses;
pub mod view;

use vstd::prelude::*;

use crate::lexer::token::{token_views, Token, TokenType, TokenView};
use crate::parser::spec::{expect_at, is_at, newline_after, Parsed, SpecParseError};

verus! {

/// Why the tokens do not parse.
#[derive(Debug)]
pub enum ParseError {
    /// The tokens ended where more were needed.
    IndexOutOfBounds,
    /// A token that cannot stand where it stands.
    UnexpectedToken(Token),
    /// Not a token of the kind needed (or no token at all).
    NotExpectedToken(Option<Token>, TokenType),
    /// A token on the same line as the item or statement before it.
    NotExpectedNewline(Token),
    /// Input the parser has no rule for: a literal of a kind it does not
    /// read, `+` after an expression, or a list it cannot extend.
    Unsupported,
}

/// The view of a parse error.
pub open spec fn err_view(e: ParseError) -> SpecParseError {
    match e {
        ParseError::IndexOutOfBounds => SpecParseError::IndexOutOfBounds,
        ParseError::UnexpectedToken(t) => SpecParseError::UnexpectedToken(t@),
        ParseError::NotExpectedToken(t, tt) => SpecParseError::NotExpectedToken(
            match t {
                Some(t) => Some(t@),
                None => None,
            },
            tt,
        ),
        ParseError::NotExpectedNewline(t) => SpecParseError::NotExpectedNewline(t@),
        ParseError::Unsupported => SpecParseError::Unsupported,
    }
}

/// Whether a parse function's result `r`, with the parser left at `idx`,
/// is what the spec result `p` says, the parsed thing taken by `view`, on
/// success and on failure alike; where the spec is `Stuck`, the result is
/// `Unsupported`.
pub open spec fn outcome<T, V>(r: Result<T, ParseError>, p: Parsed<V>, view: spec_fn(T) -> V, idx: usize) -> bool {
    match (p, r) {
        (Parsed::Done(v, j), Ok(x)) => view(x) == v && idx == j,
        (Parsed::Fail(e, j), Err(x)) => err_view(x) == e && !(x is Unsupported) && idx == j,
        (Parsed::Stuck, Err(x)) => x is Unsupported,
        _ => false,
    }
}

/// A cursor over a vector of tokens.
pub struct Parser {
    /// Whether functions must have bodies (Ferrum source, not bindings).
    pub require_impl: bool,
    pub tokens: Vec<Token>,
    pub index: usize,
}

impl Parser {
    /// The views of the tokens.
    pub open spec fn ts(&self) -> Seq<TokenView> {
        token_views(self.tokens@)
    }

    /// The position, at most the number of tokens.
    pub open spec fn wf(&self) -> bool {
        &&& self.index <= self.tokens@.len()
        &&& self.tokens@.len() < usize::MAX
    }

    /// Whether `later` is this parser with only its position moved.
    pub open spec fn same_source(&self, later: Parser) -> bool {
        &&& later.tokens == self.tokens
        &&& later.require_impl == self.require_impl
        &&& later.wf()
    }

    /// A parser at the start of `tokens`.
    pub fn new(require_impl: bool, tokens: Vec<Token>) -> (p: Parser)
        requires
            tokens@.len() < usize::MAX,
        ensures
            p.wf(),
            p.index == 0,
            p.tokens == tokens,
            p.require_impl == require_impl,
    {
        Parser { require_impl, tokens, index: 0 }
    }

    /// A copy of the current token.
    pub fn current(&self) -> (r: Result<Token, ParseError>)
        requires
            self.wf(),
        ensures
            self.index < self.tokens@.len() ==> (r matches Ok(t) && t@ == self.ts()[self.index as int]),
            self.index >= self.tokens@.len() ==> r matches Err(ParseError::IndexOutOfBounds),
    {
        if self.index >= self.tokens.len() {
            return Err(ParseError::IndexOutOfBounds);
        }
        Ok(self.tokens[self.index].duplicate())
    }

    /// A copy of the token after the current one.
    pub fn next(&self) -> (r: Result<Token, ParseError>)
        requires
            self.wf(),
        ensures
            self.index + 1 < self.tokens@.len() ==> (r matches Ok(t) && t@ == self.ts()[self.index + 1]),
            self.index + 1 >= self.tokens@.len() ==> r matches Err(ParseError::IndexOutOfBounds),
    {
        if self.index + 1 >= self.tokens.len() {
            return Err(ParseError::IndexOutOfBounds);
        }
        Ok(self.tokens[self.index + 1].duplicate())
    }

    /// Whether the tokens from the current one on are of the kinds
    /// `token_types`, in order.
    pub fn scan(&self, token_types: &[TokenType]) -> (b: bool)
        requires
            self.wf(),
        ensures
            b == forall|k: int|
                0 <= k < token_types@.len() ==> #[trigger] is_at(
                    self.ts(),
                    (self.index + k) as nat,
                    token_types@[k],
                ),
    {
        let mut k: usize = 0;
        while k < token_types.len()
            invariant
                self.wf(),
                k <= token_types@.len(),
                forall|m: int| 0 <= m < k ==> #[trigger] is_at(self.ts(), (self.index + m) as nat, token_types@[m]),
            decreases token_types@.len() - k,
        {
            if self.index >= self.tokens.len() || self.tokens.len() - self.index <= k {
                assert(!is_at(self.ts(), (self.index + k) as nat, token_types@[k as int]));
                return false;
            }
            if self.tokens[self.index + k].token_type != token_types[k] {
                assert(!is_at(self.ts(), (self.index + k) as nat, token_types@[k as int]));
                return false;
            }
            k = k + 1;
        }
        true
    }

    /// Whether the current token is of kind `tt`.
    pub fn scan_one(&self, tt: TokenType) -> (b: bool)
        requires
            self.wf(),
        ensures
            b == is_at(self.ts(), self.index as nat, tt),
    {
        self.index < self.tokens.len() && self.tokens[self.index].token_type == tt
    }

    /// Whether the current token and the one after it are of kinds `a`, `b`.
    pub fn scan_two(&self, a: TokenType, b: TokenType) -> (r: bool)
        requires
            self.wf(),
        ensures
            r == (is_at(self.ts(), self.index as nat, a) && is_at(self.ts(), (self.index + 1) as nat, b)),
    {
        self.index < self.tokens.len() && self.tokens[self.index].token_type == a
            && self.tokens.len() - self.index > 1 && self.tokens[self.index + 1].token_type == b
    }

    /// The current token, if it is of kind `token_type`; else the error
    /// that says what was expected.
    pub fn expect(&self, token_type: TokenType) -> (r: Result<Token, ParseError>)
        requires
            self.wf(),
        ensures
            match (expect_at(self.ts(), self.index as nat, token_type), r) {
                (Ok(t), Ok(x)) => x@ == t,
                (Err(e), Err(x)) => err_view(x) == e,
                _ => false,
            },
    {
        match self.current() {
            Ok(token) => {
                if token.token_type == token_type {
                    Ok(token)
                } else {
                    Err(ParseError::NotExpectedToken(Some(token), token_type))
                }
            },
            Err(_) => Err(ParseError::NotExpectedToken(None, token_type)),
        }
    }

    /// Checks that the current token, if any, is on a later line than
    /// `line`, or closes a brace.
    pub fn expect_newline(&self, line: usize) -> (r: Result<(), ParseError>)
        requires
            self.wf(),
        ensures
            match (newline_after(self.ts(), self.index as nat, line), r) {
                (Ok(_), Ok(_)) => true,
                (Err(e), Err(x)) => err_view(x) == e,
                _ => false,
            },
    {
        if let Ok(next) = self.current() {
            if next.token_type == TokenType::CloseBrace {
                return Ok(());
            }
            if next.span.from.line == line {
                return Err(ParseError::NotExpectedNewline(next));
            }
        }
        Ok(())
    }

    /// The current token, if it is of kind `token_type`, moving past it.
    pub fn consume(&mut self, token_type: TokenType) -> (r: Result<Token, ParseError>)
        requires
            old(self).wf(),
        ensures
            old(self).same_source(*final(self)),
            match (expect_at(old(self).ts(), old(self).index as nat, token_type), r) {
                (Ok(t), Ok(x)) => x@ == t && final(self).index == old(self).index + 1,
                (Err(e), Err(x)) => err_view(x) == e && final(self).index == old(self).index,
                _ => false,
            },
    {
        let token = self.expect(token_type)?;
        self.index = self.index + 1;
        Ok(token)
    }

    /// The current token, moving past it, if it is of kind `token_type`.
    pub fn consume_if(&mut self, token_type: TokenType) -> (r: Result<Option<Token>, ParseError>)
        requires
            old(self).wf(),
        ensures
            old(self).same_source(*final(self)),
            is_at(old(self).ts(), old(self).index as nat, token_type) ==> (r matches Ok(Some(t))
                && t@ == old(self).ts()[old(self).index as int] && final(self).index == old(self).index
                + 1),
            !is_at(old(self).ts(), old(self).index as nat, token_type) ==> (r matches Ok(None)
                && final(self).index == old(self).index),
    {
        if !self.scan_one(token_type) {
            return Ok(None);
        }
        let token = self.consume(token_type)?;
        Ok(Some(token))
    }

    /// The current token, moving past it.
    pub fn consume_current(&mut self) -> (r: Result<Token, ParseError>)
        requires
            old(self).wf(),
        ensures
            old(self).same_source(*final(self)),
            old(self).index < old(self).tokens@.len() ==> (r matches Ok(t) && t@ == old(self).ts()[old(
                self,
            ).index as int] && final(self).index == old(self).index + 1),
            old(self).index >= old(self).tokens@.len() ==> (r matches Err(ParseError::IndexOutOfBounds)
                && final(self).index == old(self).index),
    {
        let token = self.current()?;
        self.index = self.index + 1;
        Ok(token)
    }
}

} // verus!

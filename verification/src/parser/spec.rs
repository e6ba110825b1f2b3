//! What the parser computes, as mathematical functions from the views of
//! the tokens and a position to a syntax tree (as a view) and the position
//! after it, an error, or `Stuck` where the parser cannot go on (it stops
//! the program, or never ends).
use vstd::prelude::*;

use crate::lexer::token::{Keyword, Literal, TokenType, TokenView};
use crate::parser::ast::FileType;
use crate::parser::view::{
    SpecFileAst,
    SpecDeclPatternNode, SpecDeclarationNode, SpecDestructUsePattern, SpecDestructUsePatternNode,
    SpecExpr, SpecExprNode, SpecFnCallArgNode, SpecFnCallNode, SpecFnDefBody, SpecFnDefNode,
    SpecFnDefParamNode, SpecIdentLookupNode, SpecInitUsePattern, SpecInitUsePatternNode, SpecItem,
    SpecItemNode, SpecLiteral, SpecLiteralNode, SpecParentDir, SpecPatternPrefix, SpecPunct,
    SpecStatement, SpecStatementNode, SpecType, SpecTypeNode, SpecUseNode, SpecUsePattern,
    SpecUsePatternNode, SpecUsePatternPath,
};
use crate::span::{spec_join, spec_join_opt, Span};

verus! {

/// A parse error, as a mathematical value.
pub enum SpecParseError {
    IndexOutOfBounds,
    UnexpectedToken(TokenView),
    NotExpectedToken(Option<TokenView>, TokenType),
    NotExpectedNewline(TokenView),
    Unsupported,
}

/// What parsing something gives: the thing and the position after it; an
/// error and the position the parser stands at when it fails; or `Stuck`.
pub enum Parsed<T> {
    Done(T, nat),
    Fail(SpecParseError, nat),
    Stuck,
}

/// Whether the token at `i` is of kind `tt`.
pub open spec fn is_at(ts: Seq<TokenView>, i: nat, tt: TokenType) -> bool {
    i < ts.len() && ts[i as int].token_type == tt
}

/// The token at `i` if it is of kind `tt`, else the error that says so.
pub open spec fn expect_at(ts: Seq<TokenView>, i: nat, tt: TokenType) -> Result<TokenView, SpecParseError> {
    if i >= ts.len() {
        Err(SpecParseError::NotExpectedToken(None, tt))
    } else if ts[i as int].token_type == tt {
        Ok(ts[i as int])
    } else {
        Err(SpecParseError::NotExpectedToken(Some(ts[i as int]), tt))
    }
}

/// Whether a thing that ends on `line` may be followed by the token at
/// `i`: it must start on a later line, unless it closes a brace or there
/// is none.
pub open spec fn newline_after(ts: Seq<TokenView>, i: nat, line: usize) -> Result<(), SpecParseError> {
    if i < ts.len() && ts[i as int].token_type != TokenType::CloseBrace && ts[i as int].span.from.line
        == line {
        Err(SpecParseError::NotExpectedNewline(ts[i as int]))
    } else {
        Ok(())
    }
}

/// A punctuated sequence with `v` appended, after delimiter `d` or as the
/// first value.
pub open spec fn spunct_push<T>(p: SpecPunct<T>, d: Option<TokenView>, v: T) -> SpecPunct<T> {
    match d {
        None => SpecPunct::NonEmpty { first: v, rest: Seq::empty(), trailing: None },
        Some(d) => match p {
            SpecPunct::NonEmpty { first, rest, trailing } => SpecPunct::NonEmpty {
                first,
                rest: rest.push((d, v)),
                trailing,
            },
            SpecPunct::Empty => SpecPunct::Empty,
        },
    }
}

/// Whether `spunct_push(p, d, v)` is allowed: a first value only when empty,
/// a delimited one only when not.
pub open spec fn can_push<T>(p: SpecPunct<T>, d: Option<TokenView>) -> bool {
    (d is None) == (p is Empty)
}

/// The punctuated sequence with its trailing delimiter set to `d`, if any.
pub open spec fn spunct_trail<T>(p: SpecPunct<T>, d: Option<TokenView>) -> SpecPunct<T> {
    match (d, p) {
        (Some(d), SpecPunct::NonEmpty { first, rest, .. }) => SpecPunct::NonEmpty {
            first,
            rest,
            trailing: Some(d),
        },
        _ => p,
    }
}

/// The token `&` that the parser makes up for each half of `&&` in a type.
pub open spec fn amp_token(span: Span) -> TokenView {
    TokenView { token_type: TokenType::Ampersand, literal: "&"@, span }
}

// ---- types ----

/// `?T`, `string`, `bool`, `&T`, `&mut T`, `&&T` or `&&mut T`.
pub open spec fn parse_type_s(ts: Seq<TokenView>, i: nat) -> Parsed<SpecTypeNode>
    decreases ts.len() - i,
{
    if i >= ts.len() {
        Parsed::Fail(SpecParseError::IndexOutOfBounds, i)
    } else {
        let t = ts[i as int];
        match t.token_type {
            TokenType::QuestionMark => match parse_type_s(ts, i + 1) {
                Parsed::Done(inner, j) => {
                    let span = spec_join(t.span, inner.span);
                    Parsed::Done(
                        SpecTypeNode {
                            span,
                            typ: SpecType::Optional { question_mark: t, of: Box::new(inner), span },
                        },
                        j,
                    )
                },
                Parsed::Fail(e, q) => Parsed::Fail(e, q),
                Parsed::Stuck => Parsed::Stuck,
            },
            TokenType::Primitive(crate::lexer::token::Primitive::String) => Parsed::Done(
                SpecTypeNode { span: t.span, typ: SpecType::String(t) },
                i + 1,
            ),
            TokenType::Primitive(crate::lexer::token::Primitive::Bool) => Parsed::Done(
                SpecTypeNode { span: t.span, typ: SpecType::Bool(t) },
                i + 1,
            ),
            TokenType::Ampersand => if is_at(ts, i + 1, TokenType::Keyword(Keyword::Mut)) {
                match parse_type_s(ts, i + 2) {
                    Parsed::Done(inner, j) => Parsed::Done(
                        SpecTypeNode {
                            span: t.span,
                            typ: SpecType::MutRef {
                                span: t.span,
                                ref_token: t,
                                mut_token: ts[i + 1 as int],
                                of: Box::new(inner),
                            },
                        },
                        j,
                    ),
                    Parsed::Fail(e, q) => Parsed::Fail(e, q),
                    Parsed::Stuck => Parsed::Stuck,
                }
            } else {
                match parse_type_s(ts, i + 1) {
                    Parsed::Done(inner, j) => Parsed::Done(
                        SpecTypeNode {
                            span: t.span,
                            typ: SpecType::SharedRef { span: t.span, ref_token: t, of: Box::new(inner) },
                        },
                        j,
                    ),
                    Parsed::Fail(e, q) => Parsed::Fail(e, q),
                    Parsed::Stuck => Parsed::Stuck,
                }
            },
            TokenType::DoubleAmpersand => {
                let span1 = Span { from: t.span.from, to: t.span.from };
                let span2 = Span { from: t.span.to, to: t.span.to };
                let is_mut = is_at(ts, i + 1, TokenType::Keyword(Keyword::Mut));
                let k: nat = if is_mut {
                    i + 2
                } else {
                    i + 1
                };
                match parse_type_s(ts, k) {
                    Parsed::Done(inner, j) => {
                        let typ = if is_mut {
                            SpecType::MutRef {
                                span: spec_join(span2, ts[i + 1 as int].span),
                                ref_token: amp_token(span2),
                                mut_token: ts[i + 1 as int],
                                of: Box::new(inner),
                            }
                        } else {
                            SpecType::SharedRef {
                                span: span2,
                                ref_token: amp_token(span2),
                                of: Box::new(inner),
                            }
                        };
                        Parsed::Done(
                            SpecTypeNode {
                                span: span1,
                                typ: SpecType::SharedRef {
                                    span: span1,
                                    ref_token: amp_token(span1),
                                    of: Box::new(SpecTypeNode { span: span2, typ }),
                                },
                            },
                            j,
                        )
                    },
                    Parsed::Fail(e, q) => Parsed::Fail(e, q),
                    Parsed::Stuck => Parsed::Stuck,
                }
            },
            _ => Parsed::Stuck,
        }
    }
}

// ---- expressions ----

/// A literal: `true`, `false` or a string.
pub open spec fn parse_literal_s(ts: Seq<TokenView>, i: nat) -> Parsed<SpecLiteralNode> {
    if i >= ts.len() {
        Parsed::Fail(SpecParseError::IndexOutOfBounds, i)
    } else {
        let t = ts[i as int];
        match t.token_type {
            TokenType::Literal(Literal::Bool(b)) => Parsed::Done(
                SpecLiteralNode { span: t.span, literal: SpecLiteral::Bool(b) },
                i + 1,
            ),
            TokenType::Literal(Literal::String) => Parsed::Done(
                SpecLiteralNode { span: t.span, literal: SpecLiteral::String(t.literal) },
                i + 1,
            ),
            TokenType::Literal(_) => Parsed::Stuck,
            _ => Parsed::Fail(SpecParseError::UnexpectedToken(t), i + 1),
        }
    }
}

/// A name.
pub open spec fn parse_ident_lookup_s(ts: Seq<TokenView>, i: nat) -> Parsed<SpecIdentLookupNode> {
    match expect_at(ts, i, TokenType::Identifier) {
        Ok(t) => Parsed::Done(SpecIdentLookupNode { span: t.span, name: t }, i + 1),
        Err(e) => Parsed::Fail(e, i),
    }
}

/// An expression: a reference, a dereference or a simple expression, not
/// followed (one token further on) by `+`.
pub open spec fn parse_expr_s(ts: Seq<TokenView>, i: nat) -> Parsed<SpecExprNode>
    decreases ts.len() - i, 8nat,
{
    match parse_expr_layer_2_s(ts, i) {
        Parsed::Done(e, j) => if is_at(ts, j + 1, TokenType::Plus) {
            Parsed::Stuck
        } else {
            Parsed::Done(e, j)
        },
        other => other,
    }
}

/// `&expr`, `@expr`, or a simple expression.
pub open spec fn parse_expr_layer_2_s(ts: Seq<TokenView>, i: nat) -> Parsed<SpecExprNode>
    decreases ts.len() - i, 7nat,
{
    if i >= ts.len() {
        Parsed::Fail(SpecParseError::IndexOutOfBounds, i)
    } else if ts[i as int].token_type == TokenType::Ampersand {
        parse_ref_expr_s(ts, i)
    } else if ts[i as int].token_type == TokenType::At {
        parse_deref_expr_s(ts, i)
    } else {
        parse_expr_layer_3_s(ts, i)
    }
}

/// A name, a call, a static access or a literal.
pub open spec fn parse_expr_layer_3_s(ts: Seq<TokenView>, i: nat) -> Parsed<SpecExprNode>
    decreases ts.len() - i, 5nat,
{
    if i >= ts.len() {
        Parsed::Fail(SpecParseError::IndexOutOfBounds, i)
    } else {
        let t = ts[i as int];
        match t.token_type {
            TokenType::Identifier => parse_ident_expr_s(ts, i),
            TokenType::Literal(_) => match parse_literal_s(ts, i) {
                Parsed::Done(l, j) => Parsed::Done(
                    SpecExprNode { span: l.span, expr: SpecExpr::Literal(l) },
                    j,
                ),
                Parsed::Fail(e, q) => Parsed::Fail(e, q),
                Parsed::Stuck => Parsed::Stuck,
            },
            _ => Parsed::Fail(SpecParseError::UnexpectedToken(t), i),
        }
    }
}

/// `@expr`
pub open spec fn parse_deref_expr_s(ts: Seq<TokenView>, i: nat) -> Parsed<SpecExprNode>
    decreases ts.len() - i, 6nat,
{
    match expect_at(ts, i, TokenType::At) {
        Err(e) => Parsed::Fail(e, i),
        Ok(t) => match parse_expr_layer_2_s(ts, i + 1) {
            Parsed::Done(e, j) => {
                let span = spec_join(t.span, e.span);
                Parsed::Done(
                    SpecExprNode { span, expr: SpecExpr::Deref { deref_token: t, expr: Box::new(e), span } },
                    j,
                )
            },
            Parsed::Fail(e, q) => Parsed::Fail(e, q),
            Parsed::Stuck => Parsed::Stuck,
        },
    }
}

/// `& mut? expr`
pub open spec fn parse_ref_expr_s(ts: Seq<TokenView>, i: nat) -> Parsed<SpecExprNode>
    decreases ts.len() - i, 6nat,
{
    match expect_at(ts, i, TokenType::Ampersand) {
        Err(e) => Parsed::Fail(e, i),
        Ok(t) => {
            let is_mut = is_at(ts, i + 1, TokenType::Keyword(Keyword::Mut));
            let mut_token = if is_mut {
                Some(ts[i + 1 as int])
            } else {
                None
            };
            let k: nat = if is_mut {
                i + 2
            } else {
                i + 1
            };
            match parse_expr_layer_2_s(ts, k) {
                Parsed::Done(e, j) => {
                    let span = spec_join(t.span, e.span);
                    Parsed::Done(
                        SpecExprNode {
                            span,
                            expr: SpecExpr::Ref { ref_token: t, mut_token, expr: Box::new(e), span },
                        },
                        j,
                    )
                },
                Parsed::Fail(e, q) => Parsed::Fail(e, q),
                Parsed::Stuck => Parsed::Stuck,
            }
        },
    }
}

/// A name, a call `name(...)`, or a static access `name::...`.
pub open spec fn parse_ident_expr_s(ts: Seq<TokenView>, i: nat) -> Parsed<SpecExprNode>
    decreases ts.len() - i, 4nat,
{
    match expect_at(ts, i, TokenType::Identifier) {
        Err(e) => Parsed::Fail(e, i),
        Ok(_) => if is_at(ts, i + 1, TokenType::OpenParenthesis) {
            match parse_fn_call_s(ts, i) {
                Parsed::Done(c, j) => Parsed::Done(SpecExprNode { span: c.span, expr: SpecExpr::FnCall(c) }, j),
                Parsed::Fail(e, q) => Parsed::Fail(e, q),
                Parsed::Stuck => Parsed::Stuck,
            }
        } else {
            match parse_ident_lookup_s(ts, i) {
                Parsed::Done(lookup, j) => if is_at(ts, j, TokenType::DoubleColon) {
                    parse_static_access_s(ts, j, lookup)
                } else {
                    Parsed::Done(SpecExprNode { span: lookup.span, expr: SpecExpr::IdentLookup(lookup) }, j)
                },
                Parsed::Fail(e, q) => Parsed::Fail(e, q),
                Parsed::Stuck => Parsed::Stuck,
            }
        },
    }
}

/// `::expr` after the name `lhs`.
pub open spec fn parse_static_access_s(ts: Seq<TokenView>, i: nat, lhs: SpecIdentLookupNode) -> Parsed<
    SpecExprNode,
>
    decreases ts.len() - i, 3nat,
{
    match expect_at(ts, i, TokenType::DoubleColon) {
        Err(e) => Parsed::Fail(e, i),
        Ok(delim) => match parse_expr_layer_3_s(ts, i + 1) {
            Parsed::Done(rhs, j) => {
                let span = spec_join(lhs.span, rhs.span);
                Parsed::Done(
                    SpecExprNode {
                        span,
                        expr: SpecExpr::StaticAccess { lhs, delim, rhs: Box::new(rhs), span },
                    },
                    j,
                )
            },
            Parsed::Fail(e, q) => Parsed::Fail(e, q),
            Parsed::Stuck => Parsed::Stuck,
        },
    }
}

/// `name(args)`
pub open spec fn parse_fn_call_s(ts: Seq<TokenView>, i: nat) -> Parsed<SpecFnCallNode>
    decreases ts.len() - i, 3nat,
{
    match expect_at(ts, i, TokenType::Identifier) {
        Err(e) => Parsed::Fail(e, i),
        Ok(name) => match expect_at(ts, i + 1, TokenType::OpenParenthesis) {
            Err(e) => Parsed::Fail(e, i + 1),
            Ok(open) => match parse_call_args_s(ts, i + 2, SpecPunct::Empty, None) {
                Parsed::Done((args, comma), k) => match expect_at(ts, k, TokenType::CloseParenthesis) {
                    Err(e) => Parsed::Fail(e, k),
                    Ok(close) => Parsed::Done(
                        SpecFnCallNode {
                            span: spec_join(name.span, close.span),
                            name,
                            open_paren: open,
                            close_paren: close,
                            args: spunct_trail(args, comma),
                        },
                        k + 1,
                    ),
                },
                Parsed::Fail(e, q) => Parsed::Fail(e, q),
                Parsed::Stuck => Parsed::Stuck,
            },
        },
    }
}

/// The arguments of a call from `k` up to `)`, appended to `args`; `comma`
/// is the comma after the last argument read, if any.
pub open spec fn parse_call_args_s(
    ts: Seq<TokenView>,
    k: nat,
    args: SpecPunct<SpecFnCallArgNode>,
    comma: Option<TokenView>,
) -> Parsed<(SpecPunct<SpecFnCallArgNode>, Option<TokenView>)>
    decreases ts.len() - k, 9nat,
{
    if is_at(ts, k, TokenType::CloseParenthesis) {
        Parsed::Done((args, comma), k)
    } else {
        let named = is_at(ts, k, TokenType::Identifier) && is_at(ts, k + 1, TokenType::Equals);
        let k1: nat = if named {
            k + 2
        } else {
            k
        };
        match parse_expr_s(ts, k1) {
            Parsed::Done(e, j) => {
                let name = if named {
                    Some((ts[k as int], ts[k + 1 as int]))
                } else {
                    None
                };
                let span = if named {
                    spec_join(ts[k as int].span, e.span)
                } else {
                    e.span
                };
                let arg = SpecFnCallArgNode { span, name, expr: Box::new(e) };
                let next_comma = if is_at(ts, j, TokenType::Comma) {
                    Some(ts[j as int])
                } else {
                    None
                };
                let j2: nat = if is_at(ts, j, TokenType::Comma) {
                    j + 1
                } else {
                    j
                };
                if !can_push(args, comma) || j2 <= k || j2 > ts.len() {
                    Parsed::Stuck
                } else {
                    parse_call_args_s(ts, j2, spunct_push(args, comma, arg), next_comma)
                }
            },
            Parsed::Fail(e, q) => Parsed::Fail(e, q),
            Parsed::Stuck => Parsed::Stuck,
        }
    }
}

// ---- statements ----

/// `const` or `let`, a pattern, an optional type and an optional value.
pub open spec fn parse_assign_decl_s(ts: Seq<TokenView>, i: nat) -> Parsed<SpecStatementNode>
    decreases ts.len() - i, 10nat,
{
    let is_const = is_at(ts, i, TokenType::Keyword(Keyword::Const));
    let decl = if is_const {
        Ok(ts[i as int])
    } else {
        expect_at(ts, i, TokenType::Keyword(Keyword::Let))
    };
    match decl {
        Err(e) => Parsed::Fail(e, i),
        Ok(decl_token) => match parse_assign_pattern_s(ts, i + 1) {
            Parsed::Done(pattern, j1) => {
                let span1 = spec_join(decl_token.span, pattern.span);
                let typed = parse_decl_type_s(ts, j1, span1);
                match typed {
                    Parsed::Done((explicit_type, span2), j2) => {
                        match parse_decl_rhs_s(ts, j2, span2) {
                            Parsed::Done((rhs_expr, span), j3) => Parsed::Done(
                                SpecStatementNode {
                                    span,
                                    statement: SpecStatement::Decl(
                                        SpecDeclarationNode {
                                            span,
                                            is_const,
                                            decl_token,
                                            decl_pattern: pattern,
                                            explicit_type,
                                            rhs_expr,
                                        },
                                    ),
                                },
                                j3,
                            ),
                            Parsed::Fail(e, q) => Parsed::Fail(e, q),
                            Parsed::Stuck => Parsed::Stuck,
                        }
                    },
                    Parsed::Fail(e, q) => Parsed::Fail(e, q),
                    Parsed::Stuck => Parsed::Stuck,
                }
            },
            Parsed::Fail(e, q) => Parsed::Fail(e, q),
            Parsed::Stuck => Parsed::Stuck,
        },
    }
}

/// The optional `: type` of a declaration whose span so far is `span`.
pub open spec fn parse_decl_type_s(ts: Seq<TokenView>, j: nat, span: Span) -> Parsed<
    (Option<(TokenView, SpecTypeNode)>, Span),
> {
    if is_at(ts, j, TokenType::Colon) {
        match parse_type_s(ts, j + 1) {
            Parsed::Done(t, k) => Parsed::Done((Some((ts[j as int], t)), spec_join(span, t.span)), k),
            Parsed::Fail(e, q) => Parsed::Fail(e, q),
            Parsed::Stuck => Parsed::Stuck,
        }
    } else {
        Parsed::Done((None, span), j)
    }
}

/// The optional `= expr` of a declaration whose span so far is `span`.
pub open spec fn parse_decl_rhs_s(ts: Seq<TokenView>, j: nat, span: Span) -> Parsed<
    (Option<(TokenView, SpecExprNode)>, Span),
>
    decreases ts.len() - j, 9nat,
{
    if is_at(ts, j, TokenType::Equals) {
        match parse_expr_s(ts, j + 1) {
            Parsed::Done(e, k) => Parsed::Done((Some((ts[j as int], e)), spec_join(span, e.span)), k),
            Parsed::Fail(e, q) => Parsed::Fail(e, q),
            Parsed::Stuck => Parsed::Stuck,
        }
    } else {
        Parsed::Done((None, span), j)
    }
}

/// The pattern a declaration binds: a name.
pub open spec fn parse_assign_pattern_s(ts: Seq<TokenView>, i: nat) -> Parsed<SpecDeclPatternNode> {
    if i >= ts.len() {
        Parsed::Fail(SpecParseError::IndexOutOfBounds, i)
    } else if ts[i as int].token_type == TokenType::Identifier {
        Parsed::Done(SpecDeclPatternNode { id: ts[i as int], span: ts[i as int].span }, i + 1)
    } else {
        Parsed::Stuck
    }
}

/// A declaration or an expression, ended by a new line.
pub open spec fn parse_statement_s(ts: Seq<TokenView>, i: nat) -> Parsed<SpecStatementNode>
    decreases ts.len() - i, 11nat,
{
    if i >= ts.len() {
        Parsed::Fail(SpecParseError::IndexOutOfBounds, i)
    } else {
        let r = if ts[i as int].token_type == TokenType::Keyword(Keyword::Const)
            || ts[i as int].token_type == TokenType::Keyword(Keyword::Let) {
            parse_assign_decl_s(ts, i)
        } else {
            match parse_expr_s(ts, i) {
                Parsed::Done(e, j) => Parsed::Done(
                    SpecStatementNode { span: e.span, statement: SpecStatement::Expr(e) },
                    j,
                ),
                Parsed::Fail(e, q) => Parsed::Fail(e, q),
                Parsed::Stuck => Parsed::Stuck,
            }
        };
        match r {
            Parsed::Done(s, j) => match newline_after(ts, j, s.span.to.line) {
                Ok(_) => Parsed::Done(s, j),
                Err(e) => Parsed::Fail(e, j),
            },
            other => other,
        }
    }
}

// ---- use ----

/// `../` repeated, from `k`, appended to `dirs`; `span` covers them.
pub open spec fn parse_parent_dirs_s(ts: Seq<TokenView>, k: nat, dirs: Seq<SpecParentDir>, span: Option<Span>) -> (
    Seq<SpecParentDir>,
    Option<Span>,
    nat,
)
    decreases ts.len() - k,
{
    if is_at(ts, k, TokenType::DoublePeriod) && is_at(ts, k + 1, TokenType::ForwardSlash) {
        let d = SpecParentDir {
            span: spec_join(ts[k as int].span, ts[k + 1 as int].span),
            double_period: ts[k as int],
            forward_slash: ts[k + 1 as int],
        };
        parse_parent_dirs_s(ts, k + 2, dirs.push(d), Some(spec_join_opt(span, d.span)))
    } else {
        (dirs, span, k)
    }
}

/// The optional prefix of a use path: `~/` or `../../`.
pub open spec fn parse_prefix_s(ts: Seq<TokenView>, k: nat) -> (Option<SpecPatternPrefix>, nat) {
    if is_at(ts, k, TokenType::Tilde) && is_at(ts, k + 1, TokenType::ForwardSlash) {
        (
            Some(
                SpecPatternPrefix::Root {
                    span: spec_join(ts[k as int].span, ts[k + 1 as int].span),
                    tilde: ts[k as int],
                    forward_slash: ts[k + 1 as int],
                },
            ),
            k + 2,
        )
    } else if is_at(ts, k, TokenType::DoublePeriod) && is_at(ts, k + 1, TokenType::ForwardSlash) {
        let (dirs, span, j) = parse_parent_dirs_s(ts, k, Seq::empty(), None);
        (Some(SpecPatternPrefix::Rel { parent_dirs: dirs, span: span->0 }), j)
    } else {
        (None, k)
    }
}

/// `pub? use prefix? pattern`, the `use` at `i`.
pub open spec fn parse_use_s(ts: Seq<TokenView>, i: nat, public: Option<TokenView>) -> Parsed<SpecUseNode> {
    match expect_at(ts, i, TokenType::Keyword(Keyword::Use)) {
        Err(e) => Parsed::Fail(e, i),
        Ok(use_token) => {
            let (prefix, k) = parse_prefix_s(ts, i + 1);
            match parse_init_use_pattern_s(ts, k) {
                Parsed::Done(p, j) => {
                    let start = match public {
                        Some(p) => p.span,
                        None => use_token.span,
                    };
                    Parsed::Done(
                        SpecUseNode {
                            span: spec_join(start, p.span),
                            public,
                            use_token,
                            pattern_prefix: prefix,
                            use_pattern: p,
                        },
                        j,
                    )
                },
                Parsed::Fail(e, q) => Parsed::Fail(e, q),
                Parsed::Stuck => Parsed::Stuck,
            }
        },
    }
}

/// The first segment of a use pattern: `name` or `name::rest`.
pub open spec fn parse_init_use_pattern_s(ts: Seq<TokenView>, i: nat) -> Parsed<SpecInitUsePatternNode> {
    match expect_at(ts, i, TokenType::Identifier) {
        Err(e) => Parsed::Fail(e, i),
        Ok(t) => if is_at(ts, i + 1, TokenType::DoubleColon) {
            match parse_use_pattern_s(ts, i + 2) {
                Parsed::Done(rhs, j) => Parsed::Done(
                    SpecInitUsePatternNode {
                        span: spec_join(t.span, rhs.span),
                        use_pattern: SpecInitUsePattern::Path(
                            SpecUsePatternPath { parent_name: t, delim: ts[i + 1 as int], rhs: Box::new(rhs) },
                        ),
                    },
                    j,
                ),
                Parsed::Fail(e, q) => Parsed::Fail(e, q),
                Parsed::Stuck => Parsed::Stuck,
            }
        } else {
            Parsed::Done(SpecInitUsePatternNode { span: t.span, use_pattern: SpecInitUsePattern::Id(t) }, i + 1)
        },
    }
}

/// A use pattern segment: `name`, `name::rest`, `*` or `{ ... }`.
pub open spec fn parse_use_pattern_s(ts: Seq<TokenView>, i: nat) -> Parsed<SpecUsePatternNode>
    decreases ts.len() - i, 0nat,
{
    if i >= ts.len() {
        Parsed::Fail(SpecParseError::IndexOutOfBounds, i)
    } else {
        let t = ts[i as int];
        match t.token_type {
            TokenType::Identifier => if is_at(ts, i + 1, TokenType::DoubleColon) {
                match parse_use_pattern_s(ts, i + 2) {
                    Parsed::Done(rhs, j) => Parsed::Done(
                        SpecUsePatternNode {
                            span: spec_join(t.span, rhs.span),
                            use_pattern: SpecUsePattern::Path(
                                SpecUsePatternPath { parent_name: t, delim: ts[i + 1 as int], rhs: Box::new(rhs) },
                            ),
                        },
                        j,
                    ),
                    Parsed::Fail(e, q) => Parsed::Fail(e, q),
                    Parsed::Stuck => Parsed::Stuck,
                }
            } else {
                Parsed::Done(SpecUsePatternNode { span: t.span, use_pattern: SpecUsePattern::Id(t) }, i + 1)
            },
            TokenType::Asterisk => Parsed::Done(
                SpecUsePatternNode { span: t.span, use_pattern: SpecUsePattern::Wild(t) },
                i + 1,
            ),
            TokenType::OpenBrace => match parse_destruct_list_s(ts, i + 1, SpecPunct::Empty, None) {
                Parsed::Done(patterns, k) => match expect_at(ts, k, TokenType::CloseBrace) {
                    Err(e) => Parsed::Fail(e, k),
                    Ok(close) => Parsed::Done(
                        SpecUsePatternNode {
                            span: spec_join(t.span, close.span),
                            use_pattern: SpecUsePattern::Destruct {
                                open_brace: t,
                                patterns,
                                close_brace: close,
                            },
                        },
                        k + 1,
                    ),
                },
                Parsed::Fail(e, q) => Parsed::Fail(e, q),
                Parsed::Stuck => Parsed::Stuck,
            },
            _ => Parsed::Stuck,
        }
    }
}

/// The patterns inside `{ ... }` from `k` up to `}`, appended to `pats`;
/// `comma` is the comma after the last pattern read, if any.
pub open spec fn parse_destruct_list_s(
    ts: Seq<TokenView>,
    k: nat,
    pats: SpecPunct<SpecDestructUsePatternNode>,
    comma: Option<TokenView>,
) -> Parsed<SpecPunct<SpecDestructUsePatternNode>>
    decreases ts.len() - k, 2nat,
{
    if is_at(ts, k, TokenType::CloseBrace) {
        Parsed::Done(pats, k)
    } else {
        match parse_destruct_init_use_pattern_s(ts, k) {
            Parsed::Done(p, j) => {
                let next_comma = if is_at(ts, j, TokenType::Comma) {
                    Some(ts[j as int])
                } else {
                    None
                };
                let j2: nat = if is_at(ts, j, TokenType::Comma) {
                    j + 1
                } else {
                    j
                };
                if !can_push(pats, comma) || j2 <= k || j2 > ts.len() {
                    Parsed::Stuck
                } else {
                    parse_destruct_list_s(ts, j2, spunct_push(pats, comma, p), next_comma)
                }
            },
            Parsed::Fail(e, q) => Parsed::Fail(e, q),
            Parsed::Stuck => Parsed::Stuck,
        }
    }
}

/// A pattern inside `{ ... }`: `self`, `*`, `name` or `name::rest`.
pub open spec fn parse_destruct_init_use_pattern_s(ts: Seq<TokenView>, i: nat) -> Parsed<
    SpecDestructUsePatternNode,
>
    decreases ts.len() - i, 1nat,
{
    if is_at(ts, i, TokenType::Keyword(Keyword::Self_)) {
        Parsed::Done(
            SpecDestructUsePatternNode {
                span: ts[i as int].span,
                use_pattern: SpecDestructUsePattern::Self_(ts[i as int]),
            },
            i + 1,
        )
    } else if is_at(ts, i, TokenType::Asterisk) {
        Parsed::Done(
            SpecDestructUsePatternNode {
                span: ts[i as int].span,
                use_pattern: SpecDestructUsePattern::Wild(ts[i as int]),
            },
            i + 1,
        )
    } else {
        match expect_at(ts, i, TokenType::Identifier) {
            Err(e) => Parsed::Fail(e, i),
            Ok(t) => if is_at(ts, i + 1, TokenType::DoubleColon) {
                match parse_use_pattern_s(ts, i + 2) {
                    Parsed::Done(rhs, j) => Parsed::Done(
                        SpecDestructUsePatternNode {
                            span: spec_join(t.span, rhs.span),
                            use_pattern: SpecDestructUsePattern::Path(
                                SpecUsePatternPath { parent_name: t, delim: ts[i + 1 as int], rhs: Box::new(rhs) },
                            ),
                        },
                        j,
                    ),
                    Parsed::Fail(e, q) => Parsed::Fail(e, q),
                    Parsed::Stuck => Parsed::Stuck,
                }
            } else {
                Parsed::Done(
                    SpecDestructUsePatternNode { span: t.span, use_pattern: SpecDestructUsePattern::Id(t) },
                    i + 1,
                )
            },
        }
    }
}

// ---- functions, items and files ----

/// The parameters of a function from `k` up to `)`, appended to `params`;
/// `comma` is the comma after the last parameter read, if any.
pub open spec fn parse_params_s(
    ts: Seq<TokenView>,
    k: nat,
    params: SpecPunct<SpecFnDefParamNode>,
    comma: Option<TokenView>,
) -> Parsed<(SpecPunct<SpecFnDefParamNode>, Option<TokenView>)>
    decreases ts.len() - k,
{
    if is_at(ts, k, TokenType::CloseParenthesis) {
        Parsed::Done((params, comma), k)
    } else {
        match expect_at(ts, k, TokenType::Identifier) {
            Err(e) => Parsed::Fail(e, k),
            Ok(name) => match expect_at(ts, k + 1, TokenType::Colon) {
                Err(e) => Parsed::Fail(e, k + 1),
                Ok(colon) => match parse_type_s(ts, k + 2) {
                    Parsed::Done(param_type, j) => {
                        let d = parse_decl_rhs_s(ts, j, spec_join(name.span, param_type.span));
                        match d {
                            Parsed::Done((default_value, span), j1) => {
                                let param = SpecFnDefParamNode { span, name, colon, param_type, default_value };
                                let next_comma = if is_at(ts, j1, TokenType::Comma) {
                                    Some(ts[j1 as int])
                                } else {
                                    None
                                };
                                let j2: nat = if is_at(ts, j1, TokenType::Comma) {
                                    j1 + 1
                                } else {
                                    j1
                                };
                                if !can_push(params, comma) || j2 <= k || j2 > ts.len() {
                                    Parsed::Stuck
                                } else {
                                    parse_params_s(ts, j2, spunct_push(params, comma, param), next_comma)
                                }
                            },
                            Parsed::Fail(e, q) => Parsed::Fail(e, q),
                            Parsed::Stuck => Parsed::Stuck,
                        }
                    },
                    Parsed::Fail(e, q) => Parsed::Fail(e, q),
                    Parsed::Stuck => Parsed::Stuck,
                },
            },
        }
    }
}

/// The optional `-> type` of a function, at `k`.
pub open spec fn parse_return_type_s(ts: Seq<TokenView>, k: nat) -> Parsed<Option<(TokenView, SpecTypeNode)>> {
    if is_at(ts, k, TokenType::SkinnyArrow) {
        match parse_type_s(ts, k + 1) {
            Parsed::Done(t, j) => Parsed::Done(Some((ts[k as int], t)), j),
            Parsed::Fail(e, q) => Parsed::Fail(e, q),
            Parsed::Stuck => Parsed::Stuck,
        }
    } else {
        Parsed::Done(None, k)
    }
}

/// Whether one of `items` is exported (`pub`), which a function body may
/// not do.
pub open spec fn exports_item(items: Seq<SpecItemNode>) -> bool {
    exists|k: int|
        0 <= k < items.len() && match #[trigger] items[k].item {
            SpecItem::Use(u) => u.public is Some,
            SpecItem::FnDef(f) => f.pub_token is Some,
            SpecItem::Statement(_) => false,
        }
}

/// The part of a function definition before its body.
pub struct SpecFnSig {
    pub fn_token: TokenView,
    pub name: TokenView,
    pub open_paren: TokenView,
    pub params: SpecPunct<SpecFnDefParamNode>,
    pub close_paren: TokenView,
    pub return_type: Option<(TokenView, SpecTypeNode)>,
}

/// `fn name(params) (-> type)?`, the `fn` at `i`.
pub open spec fn parse_fn_sig_s(ts: Seq<TokenView>, i: nat) -> Parsed<SpecFnSig> {
    match (
        expect_at(ts, i, TokenType::Keyword(Keyword::Fn)),
        expect_at(ts, i + 1, TokenType::Identifier),
        expect_at(ts, i + 2, TokenType::OpenParenthesis),
    ) {
        (Err(e), _, _) => Parsed::Fail(e, i),
        (Ok(_), Err(e), _) => Parsed::Fail(e, i + 1),
        (Ok(_), Ok(_), Err(e)) => Parsed::Fail(e, i + 2),
        (Ok(fn_token), Ok(name), Ok(open_paren)) => match parse_params_s(ts, i + 3, SpecPunct::Empty, None) {
            Parsed::Done((params, comma), k) => match expect_at(ts, k, TokenType::CloseParenthesis) {
                Err(e) => Parsed::Fail(e, k),
                Ok(close_paren) => match parse_return_type_s(ts, k + 1) {
                    Parsed::Done(return_type, m) => Parsed::Done(
                        SpecFnSig {
                            fn_token,
                            name,
                            open_paren,
                            params: spunct_trail(params, comma),
                            close_paren,
                            return_type,
                        },
                        m,
                    ),
                    Parsed::Fail(e, q) => Parsed::Fail(e, q),
                    Parsed::Stuck => Parsed::Stuck,
                },
            },
            Parsed::Fail(e, q) => Parsed::Fail(e, q),
            Parsed::Stuck => Parsed::Stuck,
        },
    }
}

/// The body of a function, at `m`: `=> statement` or items ended by `;`;
/// with the span of the whole definition, which starts at `start`.
pub open spec fn parse_fn_body_s(ts: Seq<TokenView>, m: nat, start: Span) -> Parsed<(SpecFnDefBody, Span)>
    decreases ts.len() - m, 7nat,
{
    if is_at(ts, m, TokenType::FatArrow) {
        match parse_statement_s(ts, m + 1) {
            Parsed::Done(s, j) => {
                let span = spec_join(start, spec_join(ts[m as int].span, s.span));
                Parsed::Done(
                    (
                        SpecFnDefBody::Stmt {
                            fat_arrow: ts[m as int],
                            stmt: Box::new(SpecItemNode { span: s.span, item: SpecItem::Statement(s) }),
                            span,
                        },
                        span,
                    ),
                    j,
                )
            },
            Parsed::Fail(e, q) => Parsed::Fail(e, q),
            Parsed::Stuck => Parsed::Stuck,
        }
    } else {
        match parse_items_while_s(ts, m, true, true, Seq::empty()) {
            Parsed::Done(items, j) => if exports_item(items) {
                Parsed::Stuck
            } else {
                match expect_at(ts, j, TokenType::Semicolon) {
                    Err(e) => Parsed::Fail(e, j),
                    Ok(close) => {
                        let block_span = if items.len() > 0 {
                            spec_join(items[0].span, close.span)
                        } else {
                            close.span
                        };
                        Parsed::Done(
                            (
                                SpecFnDefBody::Block { items, close_semicolon: close, span: block_span },
                                spec_join(start, block_span),
                            ),
                            j + 1,
                        )
                    },
                }
            },
            Parsed::Fail(e, q) => Parsed::Fail(e, q),
            Parsed::Stuck => Parsed::Stuck,
        }
    }
}

/// `fn name(params) (-> type)? (=> statement | items ;)`, the `fn` at `i`,
/// with `public` the `pub` token before it, if any.
pub open spec fn parse_fn_def_s(ts: Seq<TokenView>, i: nat, public: Option<TokenView>) -> Parsed<SpecFnDefNode>
    decreases ts.len() - i, 4nat,
{
    match parse_fn_sig_s(ts, i) {
        Parsed::Done(sig, m) => {
            if m <= i || m > ts.len() {
                // The signature is read from `i` on and within the tokens,
                // so this cannot happen.
                Parsed::Stuck
            } else {
                let start = match public {
                    Some(p) => p.span,
                    None => sig.fn_token.span,
                };
                match parse_fn_body_s(ts, m, start) {
                    Parsed::Done((body, span), j) => Parsed::Done(
                        SpecFnDefNode {
                            pub_token: public,
                            fn_token: sig.fn_token,
                            name: sig.name,
                            open_paren: sig.open_paren,
                            params: sig.params,
                            close_paren: sig.close_paren,
                            return_type: sig.return_type,
                            body,
                            scope: Seq::empty(),
                            span,
                        },
                        j,
                    ),
                    Parsed::Fail(e, q) => Parsed::Fail(e, q),
                    Parsed::Stuck => Parsed::Stuck,
                }
            }
        },
        Parsed::Fail(e, q) => Parsed::Fail(e, q),
        Parsed::Stuck => Parsed::Stuck,
    }
}

/// An item: `pub? use ...`, `pub? fn ...` or a statement, which nothing
/// may follow on its last line.
pub open spec fn parse_item_s(ts: Seq<TokenView>, k: nat) -> Parsed<SpecItemNode>
    decreases ts.len() - k, 5nat,
{
    let public = if is_at(ts, k, TokenType::Keyword(Keyword::Pub)) {
        Some(ts[k as int])
    } else {
        None
    };
    let k1: nat = if public is Some {
        k + 1
    } else {
        k
    };
    if k1 >= ts.len() {
        Parsed::Fail(SpecParseError::IndexOutOfBounds, k1)
    } else {
        let r = match ts[k1 as int].token_type {
            TokenType::Keyword(Keyword::Use) => match parse_use_s(ts, k1, public) {
                Parsed::Done(u, j) => Parsed::Done(SpecItemNode { span: u.span, item: SpecItem::Use(u) }, j),
                Parsed::Fail(e, q) => Parsed::Fail(e, q),
                Parsed::Stuck => Parsed::Stuck,
            },
            TokenType::Keyword(Keyword::Fn) => match parse_fn_def_s(ts, k1, public) {
                Parsed::Done(f, j) => Parsed::Done(SpecItemNode { span: f.span, item: SpecItem::FnDef(f) }, j),
                Parsed::Fail(e, q) => Parsed::Fail(e, q),
                Parsed::Stuck => Parsed::Stuck,
            },
            _ => match public {
                Some(p) => Parsed::Fail(SpecParseError::UnexpectedToken(p), k1),
                None => match parse_statement_s(ts, k1) {
                    Parsed::Done(s, j) => Parsed::Done(
                        SpecItemNode { span: s.span, item: SpecItem::Statement(s) },
                        j,
                    ),
                    Parsed::Fail(e, q) => Parsed::Fail(e, q),
                    Parsed::Stuck => Parsed::Stuck,
                },
            },
        };
        match r {
            Parsed::Done(item, j) => match newline_after(ts, j, item.span.to.line) {
                Ok(_) => Parsed::Done(item, j),
                Err(e) => Parsed::Fail(e, j),
            },
            other => other,
        }
    }
}

/// Whether items are read at `k`: up to a `;` where `until_semicolon`
/// holds, else up to the end of the tokens.
pub open spec fn items_continue(ts: Seq<TokenView>, k: nat, until_semicolon: bool) -> bool {
    if until_semicolon {
        !is_at(ts, k, TokenType::Semicolon)
    } else {
        k < ts.len()
    }
}

/// Items from `k` on, appended to `acc`, while `items_continue` holds; a
/// `use` after an item of another kind cannot be parsed (`allow_uses`
/// says whether all items so far are uses).
pub open spec fn parse_items_while_s(
    ts: Seq<TokenView>,
    k: nat,
    until_semicolon: bool,
    allow_uses: bool,
    acc: Seq<SpecItemNode>,
) -> Parsed<Seq<SpecItemNode>>
    decreases ts.len() - k, 6nat,
{
    if !items_continue(ts, k, until_semicolon) {
        Parsed::Done(acc, k)
    } else {
        match parse_item_s(ts, k) {
            Parsed::Done(item, j) => {
                let is_use = item.item is Use;
                if (is_use && !allow_uses) || j <= k || j > ts.len() {
                    Parsed::Stuck
                } else {
                    parse_items_while_s(ts, j, until_semicolon, allow_uses && is_use, acc.push(item))
                }
            },
            Parsed::Fail(e, q) => Parsed::Fail(e, q),
            Parsed::Stuck => Parsed::Stuck,
        }
    }
}

/// The span of a whole file of tokens: from the first to the last token,
/// or the empty span at the start when there are none.
pub open spec fn file_span(ts: Seq<TokenView>) -> Span {
    if ts.len() == 0 {
        Span {
            from: crate::span::SpanPoint { line: 0, column: 0 },
            to: crate::span::SpanPoint { line: 0, column: 0 },
        }
    } else if ts.len() == 1 {
        ts[0].span
    } else {
        spec_join(ts[0].span, ts[ts.len() - 1].span)
    }
}

/// A whole file of tokens from `i` on: its items up to the end, and the
/// span of all the tokens.
pub open spec fn parse_file_s(ts: Seq<TokenView>, i: nat, require_impl: bool) -> Parsed<SpecFileAst> {
    match parse_items_while_s(ts, i, false, true, Seq::empty()) {
        Parsed::Done(items, j) => Parsed::Done(
            SpecFileAst {
                file_type: if require_impl {
                    FileType::Ferrum
                } else {
                    FileType::LocalRustBind
                },
                items,
                pub_api: Seq::empty(),
                scope: Seq::empty(),
                span: file_span(ts),
            },
            j,
        ),
        Parsed::Fail(e, q) => Parsed::Fail(e, q),
        Parsed::Stuck => Parsed::Stuck,
    }
}

/// Items read to the end of the tokens stop exactly at the end.
proof fn lemma_items_to_end(ts: Seq<TokenView>, k: nat, allow_uses: bool, acc: Seq<SpecItemNode>)
    requires
        k <= ts.len(),
    ensures
        parse_items_while_s(ts, k, false, allow_uses, acc) matches Parsed::Done(_, j) ==> j == ts.len(),
    decreases ts.len() - k,
{
    if items_continue(ts, k, false) {
        match parse_item_s(ts, k) {
            Parsed::Done(item, j) => {
                let is_use = item.item is Use;
                if !((is_use && !allow_uses) || j <= k || j > ts.len()) {
                    lemma_items_to_end(ts, j, allow_uses && is_use, acc.push(item));
                }
            },
            _ => {},
        }
    }
}

/// A parsed file takes all of its tokens: parsing stops at their end.
pub proof fn lemma_file_consumes_all(ts: Seq<TokenView>, require_impl: bool)
    ensures
        parse_file_s(ts, 0, require_impl) matches Parsed::Done(_, j) ==> j == ts.len(),
{
    lemma_items_to_end(ts, 0, true, Seq::empty());
}

/// Where the uses of a run of items stop, none follows: once an item that
/// is not a `use` has been read, no `use` comes after it.
proof fn lemma_items_uses_first(
    ts: Seq<TokenView>,
    k: nat,
    until_semicolon: bool,
    allow_uses: bool,
    acc: Seq<SpecItemNode>,
)
    requires
        allow_uses <==> forall|i: int| 0 <= i < acc.len() ==> (#[trigger] acc[i]).item is Use,
        forall|i: int, j: int| 0 <= i < j < acc.len() && (#[trigger] acc[j]).item is Use ==> (#[trigger] acc[i]).item is Use,
    ensures
        parse_items_while_s(ts, k, until_semicolon, allow_uses, acc) matches Parsed::Done(items, _) ==> forall|i: int, j: int|
            0 <= i < j < items.len() && (#[trigger] items[j]).item is Use ==> (#[trigger] items[i]).item is Use,
    decreases ts.len() - k,
{
    if items_continue(ts, k, until_semicolon) {
        match parse_item_s(ts, k) {
            Parsed::Done(item, j) => {
                let is_use = item.item is Use;
                if !((is_use && !allow_uses) || j <= k || j > ts.len()) {
                    let acc2 = acc.push(item);
                    assert forall|i: int| 0 <= i < acc2.len() && allow_uses && is_use implies (#[trigger] acc2[i]).item is Use by {
                        if i < acc.len() {
                            assert(acc2[i] == acc[i]);
                        }
                    }
                    if !(allow_uses && is_use) {
                        if !is_use {
                            assert(!(acc2[acc.len() as int].item is Use));
                        } else {
                            let w = choose|w: int| 0 <= w < acc.len() && !(acc[w].item is Use);
                            assert(acc2[w] == acc[w]);
                        }
                    }
                    assert forall|a: int, b: int| 0 <= a < b < acc2.len() && (#[trigger] acc2[b]).item is Use implies (#[trigger] acc2[a]).item is Use by {
                        if b < acc.len() {
                            assert(acc2[a] == acc[a] && acc2[b] == acc[b]);
                        } else {
                            assert(is_use && allow_uses);
                            assert(acc2[a] == acc[a]);
                        }
                    }
                    lemma_items_uses_first(ts, j, until_semicolon, allow_uses && is_use, acc2);
                }
            },
            _ => {},
        }
    }
}

/// In a parsed file, all `use` items come before every other item.
pub proof fn lemma_file_uses_first(ts: Seq<TokenView>, require_impl: bool)
    ensures
        parse_file_s(ts, 0, require_impl) matches Parsed::Done(f, _) ==> forall|i: int, j: int|
            0 <= i < j < f.items.len() && (#[trigger] f.items[j]).item is Use ==> (#[trigger] f.items[i]).item is Use,
{
    lemma_items_uses_first(ts, 0, false, true, Seq::empty());
}

} // verus!

//! Parsing expressions.
use vstd::prelude::*;

use crate::lexer::token::{Keyword, Literal as TokenLiteral, Token, TokenType};
use crate::parser::ast::{
    DerefNode, Expr, ExprNode, FnCallArgNode, FnCallNode, IdentLookupNode, Literal, LiteralNode,
    RefNode, StaticAccessNode,
};
use crate::parser::spec::{
    parse_call_args_s, parse_deref_expr_s, parse_expr_layer_2_s, parse_expr_layer_3_s, parse_expr_s,
    parse_fn_call_s, parse_ident_expr_s, parse_ident_lookup_s, parse_literal_s, parse_ref_expr_s,
    parse_static_access_s, spunct_push, spunct_trail,
};
use crate::parser::view::{
    arg_punct_view, expr_node_view, fn_call_arg_view, fn_call_view, ident_lookup_view,
    literal_node_view, opt_tok, SpecFnCallArgNode, SpecPunct,
};
use crate::parser::{outcome, ParseError, Parser};
use crate::punctuated::Punctuated;
use crate::span::Span;

verus! {

/// Appending to a punctuated sequence of call arguments appends to its view.
proof fn lemma_arg_push(
    old_p: Punctuated<FnCallArgNode, Token>,
    new_p: Punctuated<FnCallArgNode, Token>,
    d: Option<Token>,
    v: FnCallArgNode,
)
    requires
        new_p is NonEmpty,
        d is None ==> new_p->first == v && new_p->rest@.len() == 0 && new_p->trailing is None,
        d is Some ==> old_p is NonEmpty && new_p->first == old_p->first && new_p->rest@ == old_p->rest@.push((d->0, v))
            && new_p->trailing == old_p->trailing,
    ensures
        arg_punct_view(new_p) == spunct_push(arg_punct_view(old_p), opt_tok(d), fn_call_arg_view(v)),
{
    match d {
        None => {
            assert(arg_punct_view(new_p)->rest =~= Seq::<(crate::lexer::token::TokenView, SpecFnCallArgNode)>::empty());
        },
        Some(dd) => {
            assert(arg_punct_view(new_p)->rest =~= arg_punct_view(old_p)->rest.push((dd@, fn_call_arg_view(v))));
        },
    }
}

/// Parses an expression (see `parse_expr_s`).
pub fn parse_expr(parser: &mut Parser) -> (r: Result<ExprNode, ParseError>)
    requires
        old(parser).wf(),
    ensures
        old(parser).same_source(*final(parser)),
        outcome(
            r,
            parse_expr_s(old(parser).ts(), old(parser).index as nat),
            |e: ExprNode| expr_node_view(e),
            final(parser).index,
        ),
    decreases old(parser).tokens@.len() - old(parser).index, 8nat,
{
    let expr = match parse_expr_layer_2(parser) {
        Ok(e) => e,
        Err(e) => return Err(e),
    };
    let token = parser.next().ok();
    match token {
        Some(t) => {
            if t.token_type == TokenType::Plus {
                return Err(ParseError::Unsupported);
            }
            Ok(expr)
        },
        None => Ok(expr),
    }
}

/// Parses a reference, a dereference or a simple expression (see
/// `parse_expr_layer_2_s`).
pub fn parse_expr_layer_2(parser: &mut Parser) -> (r: Result<ExprNode, ParseError>)
    requires
        old(parser).wf(),
    ensures
        old(parser).same_source(*final(parser)),
        outcome(
            r,
            parse_expr_layer_2_s(old(parser).ts(), old(parser).index as nat),
            |e: ExprNode| expr_node_view(e),
            final(parser).index,
        ),
    decreases old(parser).tokens@.len() - old(parser).index, 7nat,
{
    let token = match parser.current() {
        Ok(t) => t,
        Err(e) => return Err(e),
    };
    if token.token_type == TokenType::Ampersand {
        parse_ref_expr(parser)
    } else if token.token_type == TokenType::At {
        parse_deref_expr(parser)
    } else {
        parse_expr_layer_3(parser)
    }
}

/// Parses a name, a call, a static access or a literal (see
/// `parse_expr_layer_3_s`).
pub fn parse_expr_layer_3(parser: &mut Parser) -> (r: Result<ExprNode, ParseError>)
    requires
        old(parser).wf(),
    ensures
        old(parser).same_source(*final(parser)),
        outcome(
            r,
            parse_expr_layer_3_s(old(parser).ts(), old(parser).index as nat),
            |e: ExprNode| expr_node_view(e),
            final(parser).index,
        ),
    decreases old(parser).tokens@.len() - old(parser).index, 5nat,
{
    let token = match parser.current() {
        Ok(t) => t,
        Err(e) => return Err(e),
    };
    match token.token_type {
        TokenType::Identifier => parse_ident_expr(parser),
        TokenType::Literal(_) => {
            let literal = match parse_literal(parser) {
                Ok(l) => l,
                Err(e) => return Err(e),
            };
            Ok(ExprNode { span: literal.span, expr: Expr::Literal(literal) })
        },
        _ => Err(ParseError::UnexpectedToken(token)),
    }
}

/// Parses `@expr` (see `parse_deref_expr_s`).
pub fn parse_deref_expr(parser: &mut Parser) -> (r: Result<ExprNode, ParseError>)
    requires
        old(parser).wf(),
    ensures
        old(parser).same_source(*final(parser)),
        outcome(
            r,
            parse_deref_expr_s(old(parser).ts(), old(parser).index as nat),
            |e: ExprNode| expr_node_view(e),
            final(parser).index,
        ),
    decreases old(parser).tokens@.len() - old(parser).index, 6nat,
{
    let deref_token = match parser.consume(TokenType::At) {
        Ok(t) => t,
        Err(e) => return Err(e),
    };
    let expr = match parse_expr_layer_2(parser) {
        Ok(e) => e,
        Err(e) => return Err(e),
    };
    let span = Span::join(deref_token.span, expr.span);
    Ok(ExprNode { expr: Expr::Deref(DerefNode { deref_token, expr: Box::new(expr), span }), span })
}

/// Parses `& mut? expr` (see `parse_ref_expr_s`).
pub fn parse_ref_expr(parser: &mut Parser) -> (r: Result<ExprNode, ParseError>)
    requires
        old(parser).wf(),
    ensures
        old(parser).same_source(*final(parser)),
        outcome(
            r,
            parse_ref_expr_s(old(parser).ts(), old(parser).index as nat),
            |e: ExprNode| expr_node_view(e),
            final(parser).index,
        ),
    decreases old(parser).tokens@.len() - old(parser).index, 6nat,
{
    let ref_token = match parser.consume(TokenType::Ampersand) {
        Ok(t) => t,
        Err(e) => return Err(e),
    };
    let mut_token = match parser.consume_if(TokenType::Keyword(Keyword::Mut)) {
        Ok(t) => t,
        Err(e) => return Err(e),
    };
    let expr = match parse_expr_layer_2(parser) {
        Ok(e) => e,
        Err(e) => return Err(e),
    };
    let span = Span::join(ref_token.span, expr.span);
    Ok(ExprNode { expr: Expr::Ref(RefNode { ref_token, mut_token, expr: Box::new(expr), span }), span })
}

/// Parses a literal (see `parse_literal_s`).
pub fn parse_literal(parser: &mut Parser) -> (r: Result<LiteralNode, ParseError>)
    requires
        old(parser).wf(),
    ensures
        old(parser).same_source(*final(parser)),
        outcome(
            r,
            parse_literal_s(old(parser).ts(), old(parser).index as nat),
            |l: LiteralNode| literal_node_view(l),
            final(parser).index,
        ),
{
    let token = match parser.consume_current() {
        Ok(t) => t,
        Err(e) => return Err(e),
    };
    match token.token_type {
        TokenType::Literal(TokenLiteral::Bool(is_true)) => Ok(
            LiteralNode { span: token.span, literal: Literal::Bool(is_true) },
        ),
        TokenType::Literal(TokenLiteral::String) => Ok(
            LiteralNode { span: token.span, literal: Literal::String(token.literal) },
        ),
        TokenType::Literal(_) => {
            Err(ParseError::Unsupported)
        },
        _ => Err(ParseError::UnexpectedToken(token)),
    }
}

/// Parses a name, a call or a static access (see `parse_ident_expr_s`).
pub fn parse_ident_expr(parser: &mut Parser) -> (r: Result<ExprNode, ParseError>)
    requires
        old(parser).wf(),
    ensures
        old(parser).same_source(*final(parser)),
        outcome(
            r,
            parse_ident_expr_s(old(parser).ts(), old(parser).index as nat),
            |e: ExprNode| expr_node_view(e),
            final(parser).index,
        ),
    decreases old(parser).tokens@.len() - old(parser).index, 4nat,
{
    match parser.expect(TokenType::Identifier) {
        Ok(_) => {},
        Err(e) => return Err(e),
    }
    let is_call = match parser.next() {
        Ok(t) => t.token_type == TokenType::OpenParenthesis,
        Err(_) => false,
    };
    if is_call {
        let fn_call = match parse_fn_call(parser) {
            Ok(c) => c,
            Err(e) => return Err(e),
        };
        Ok(ExprNode { span: fn_call.span, expr: Expr::FnCall(fn_call) })
    } else {
        let ident_lookup = match parse_ident_lookup(parser) {
            Ok(l) => l,
            Err(e) => return Err(e),
        };
        if parser.scan_one(TokenType::DoubleColon) {
            parse_static_access(parser, ident_lookup)
        } else {
            Ok(ExprNode { span: ident_lookup.span, expr: Expr::IdentLookup(ident_lookup) })
        }
    }
}

/// Parses a name (see `parse_ident_lookup_s`).
pub fn parse_ident_lookup(parser: &mut Parser) -> (r: Result<IdentLookupNode, ParseError>)
    requires
        old(parser).wf(),
    ensures
        old(parser).same_source(*final(parser)),
        outcome(
            r,
            parse_ident_lookup_s(old(parser).ts(), old(parser).index as nat),
            |l: IdentLookupNode| ident_lookup_view(l),
            final(parser).index,
        ),
{
    let ident_token = match parser.consume(TokenType::Identifier) {
        Ok(t) => t,
        Err(e) => return Err(e),
    };
    Ok(IdentLookupNode { span: ident_token.span, name: ident_token })
}

/// Parses `name(args)` (see `parse_fn_call_s`).
pub fn parse_fn_call(parser: &mut Parser) -> (r: Result<FnCallNode, ParseError>)
    requires
        old(parser).wf(),
    ensures
        old(parser).same_source(*final(parser)),
        outcome(
            r,
            parse_fn_call_s(old(parser).ts(), old(parser).index as nat),
            |c: FnCallNode| fn_call_view(c),
            final(parser).index,
        ),
    decreases old(parser).tokens@.len() - old(parser).index, 3nat,
{
    let ghost ts = old(parser).ts();
    let ghost i = old(parser).index as nat;
    let ident_token = match parser.consume(TokenType::Identifier) {
        Ok(t) => t,
        Err(e) => return Err(e),
    };
    let open_token = match parser.consume(TokenType::OpenParenthesis) {
        Ok(t) => t,
        Err(e) => return Err(e),
    };
    let mut args: Punctuated<FnCallArgNode, Token> = Punctuated::new();
    let mut prev_comma: Option<Token> = None;
    while !parser.scan_one(TokenType::CloseParenthesis)
        invariant
            parser.wf(),
            parser.tokens == old(parser).tokens,
            parser.require_impl == old(parser).require_impl,
            parser.ts() == ts,
            ts == old(parser).ts(),
            i == old(parser).index,
            i + 2 <= parser.index,
            crate::parser::spec::is_at(ts, i, TokenType::Identifier),
            crate::parser::spec::is_at(ts, i + 1, TokenType::OpenParenthesis),
            prev_comma is Some ==> args is NonEmpty,
            parse_call_args_s(ts, parser.index as nat, arg_punct_view(args), opt_tok(prev_comma))
                == parse_call_args_s(ts, i + 2, SpecPunct::Empty, None),
        decreases parser.tokens@.len() - parser.index,
    {
        let ghost k = parser.index as nat;
        let k_exec = parser.index;
        let named = parser.scan_two(TokenType::Identifier, TokenType::Equals);
        let name = if named {
            let name = match parser.consume(TokenType::Identifier) {
                Ok(t) => t,
                Err(e) => return Err(e),
            };
            let eq = match parser.consume(TokenType::Equals) {
                Ok(t) => t,
                Err(e) => return Err(e),
            };
            Some((name, eq))
        } else {
            None
        };
        let expr = match parse_expr(parser) {
            Ok(e) => Box::new(e),
            Err(e) => return Err(e),
        };
        let span = if let Some((name, _)) = &name {
            Span::join(name.span, expr.span)
        } else {
            expr.span
        };
        let arg = FnCallArgNode { span, name, expr };
        if prev_comma.is_none() != args.is_empty() {
            return Err(ParseError::Unsupported);
        }
        let ghost old_args = args;
        let ghost arg_g = arg;
        let ghost comma_g = prev_comma;
        args.push(prev_comma, arg);
        proof {
            lemma_arg_push(old_args, args, comma_g, arg_g);
        }
        prev_comma = match parser.consume_if(TokenType::Comma) {
            Ok(c) => c,
            Err(e) => return Err(e),
        };
        if parser.index <= k_exec {
            return Err(ParseError::Unsupported);
        }
    }
    let ghost before_trail = args;
    if let Some(prev_comma) = prev_comma {
        args.push_trailing(prev_comma);
    }
    assert(arg_punct_view(args) == spunct_trail(arg_punct_view(before_trail), opt_tok(prev_comma)));
    let close_token = match parser.consume(TokenType::CloseParenthesis) {
        Ok(t) => t,
        Err(e) => return Err(e),
    };
    Ok(
        FnCallNode {
            span: Span::join(ident_token.span, close_token.span),
            name: ident_token,
            open_paren: open_token,
            close_paren: close_token,
            args,
        },
    )
}

/// Parses `::expr` after the name `lhs` (see `parse_static_access_s`).
pub fn parse_static_access(parser: &mut Parser, lhs: IdentLookupNode) -> (r: Result<ExprNode, ParseError>)
    requires
        old(parser).wf(),
    ensures
        old(parser).same_source(*final(parser)),
        outcome(
            r,
            parse_static_access_s(old(parser).ts(), old(parser).index as nat, ident_lookup_view(lhs)),
            |e: ExprNode| expr_node_view(e),
            final(parser).index,
        ),
    decreases old(parser).tokens@.len() - old(parser).index, 3nat,
{
    let delim = match parser.consume(TokenType::DoubleColon) {
        Ok(t) => t,
        Err(e) => return Err(e),
    };
    let rhs = match parse_expr_layer_3(parser) {
        Ok(e) => e,
        Err(e) => return Err(e),
    };
    let span = Span::join(lhs.span, rhs.span);
    Ok(ExprNode { span, expr: Expr::StaticAccess(StaticAccessNode { span, delim, lhs, rhs: Box::new(rhs) }) })
}

} // verus!

//! Parsing statements.
use crate::parser::laws::lemma_decl_const_iff_const_token;
use vstd::prelude::*;

use crate::lexer::token::{Keyword, TokenType};
use crate::parser::ast::{DeclPattern, DeclPatternNode, DeclarationNode, Statement, StatementNode};
use crate::parser::expr::parse_expr;
use crate::parser::spec::{
    parse_assign_decl_s, parse_assign_pattern_s, parse_decl_rhs_s, parse_decl_type_s,
    parse_statement_s, Parsed,
};
use crate::parser::types::parse_type;
use crate::parser::view::{decl_pattern_view, stmt_node_view};
use crate::parser::{outcome, ParseError, Parser};
use crate::span::Span;

verus! {

/// Parses a statement: a declaration or an expression, which nothing may
/// follow on its last line (see `parse_statement_s`).
pub fn parse_statement(parser: &mut Parser) -> (r: Result<StatementNode, ParseError>)
    requires
        old(parser).wf(),
    ensures
        old(parser).same_source(*final(parser)),
        outcome(
            r,
            parse_statement_s(old(parser).ts(), old(parser).index as nat),
            |s: StatementNode| stmt_node_view(s),
            final(parser).index,
        ),
{
    let token = match parser.current() {
        Ok(t) => t,
        Err(e) => return Err(e),
    };
    let stmt = if token.token_type == TokenType::Keyword(Keyword::Const) || token.token_type
        == TokenType::Keyword(Keyword::Let) {
        match parse_assign_decl(parser) {
            Ok(s) => s,
            Err(e) => return Err(e),
        }
    } else {
        let expr = match parse_expr(parser) {
            Ok(e) => e,
            Err(e) => return Err(e),
        };
        StatementNode { span: expr.span, statement: Statement::Expr(expr) }
    };
    match parser.expect_newline(stmt.span.to.line) {
        Ok(_) => {},
        Err(e) => return Err(e),
    }
    Ok(stmt)
}

/// Parses `let` or `const`, a pattern, an optional `: type` and an optional
/// `= expr` (see `parse_assign_decl_s`).
pub fn parse_assign_decl(parser: &mut Parser) -> (r: Result<StatementNode, ParseError>)
    requires
        old(parser).wf(),
    ensures
        old(parser).same_source(*final(parser)),
        outcome(
            r,
            parse_assign_decl_s(old(parser).ts(), old(parser).index as nat),
            |s: StatementNode| stmt_node_view(s),
            final(parser).index,
        ),
        r matches Ok(st) ==> st.statement matches Statement::Decl(d) && (d.is_const <==> d.decl_token.token_type
            == TokenType::Keyword(Keyword::Const)),
{
    let ghost ts = old(parser).ts();
    proof {
        lemma_decl_const_iff_const_token(ts, parser.index as nat);
    }
    let is_const = parser.scan_one(TokenType::Keyword(Keyword::Const));
    let decl_token = if is_const {
        match parser.consume(TokenType::Keyword(Keyword::Const)) {
            Ok(t) => t,
            Err(e) => return Err(e),
        }
    } else {
        match parser.consume(TokenType::Keyword(Keyword::Let)) {
            Ok(t) => t,
            Err(e) => return Err(e),
        }
    };
    let decl_pattern = match parse_assign_pattern(parser) {
        Ok(p) => p,
        Err(e) => return Err(e),
    };
    let mut span = Span::join(decl_token.span, decl_pattern.span);
    let ghost j1 = parser.index as nat;
    let ghost span1 = span;
    let explicit_type = if parser.scan_one(TokenType::Colon) {
        let colon = match parser.consume(TokenType::Colon) {
            Ok(t) => t,
            Err(e) => return Err(e),
        };
        let typ = match parse_type(parser) {
            Ok(t) => t,
            Err(e) => return Err(e),
        };
        span = Span::join(span, typ.span);
        Some((colon, typ))
    } else {
        None
    };
    assert(parse_decl_type_s(ts, j1, span1) matches Parsed::Done((_, s2), j2) && s2 == span && j2
        == parser.index);
    let ghost j2 = parser.index as nat;
    let ghost span2 = span;
    let rhs_expr = if parser.scan_one(TokenType::Equals) {
        let eq = match parser.consume(TokenType::Equals) {
            Ok(t) => t,
            Err(e) => return Err(e),
        };
        let expr = match parse_expr(parser) {
            Ok(e) => e,
            Err(e) => return Err(e),
        };
        span = Span::join(span, expr.span);
        Some((eq, expr))
    } else {
        None
    };
    assert(parse_decl_rhs_s(ts, j2, span2) matches Parsed::Done((_, s3), j3) && s3 == span && j3
        == parser.index);
    Ok(
        StatementNode {
            span,
            statement: Statement::Decl(
                DeclarationNode { span, is_const, decl_token, decl_pattern, explicit_type, rhs_expr },
            ),
        },
    )
}

/// Parses the pattern a declaration binds: a name (see
/// `parse_assign_pattern_s`).
pub fn parse_assign_pattern(parser: &mut Parser) -> (r: Result<DeclPatternNode, ParseError>)
    requires
        old(parser).wf(),
    ensures
        old(parser).same_source(*final(parser)),
        outcome(
            r,
            parse_assign_pattern_s(old(parser).ts(), old(parser).index as nat),
            |p: DeclPatternNode| decl_pattern_view(p),
            final(parser).index,
        ),
{
    let token = match parser.consume_current() {
        Ok(t) => t,
        Err(e) => return Err(e),
    };
    if token.token_type == TokenType::Identifier {
        Ok(DeclPatternNode { span: token.span, decl_pattern: DeclPattern::Id(token) })
    } else {
        Err(ParseError::Unsupported)
    }
}

} // verus!

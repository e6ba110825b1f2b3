//! Parsing types.
use vstd::prelude::*;

use crate::lexer::token::{Keyword, Primitive, Token, TokenType};
use crate::parser::ast::{MutRefNode, OptionalNode, SharedRefNode, Type, TypeNode};
use crate::parser::spec::parse_type_s;
use crate::parser::view::{type_node_view, SpecType};
use crate::parser::{outcome, ParseError, Parser};
use crate::span::Span;
use vstd::string::StringExecFns;

verus! {

/// Parses a type at the current token (see `parse_type_s`): `?T`,
/// `string`, `bool`, `&T`, `&mut T`, or `&&T` (read as `& &T`).
pub fn parse_type(parser: &mut Parser) -> (r: Result<TypeNode, ParseError>)
    requires
        old(parser).wf(),
    ensures
        old(parser).same_source(*final(parser)),
        outcome(
            r,
            parse_type_s(old(parser).ts(), old(parser).index as nat),
            |t: TypeNode| type_node_view(t),
            final(parser).index,
        ),
    decreases old(parser).tokens@.len() - old(parser).index,
{
    let token = match parser.consume_current() {
        Ok(v) => v,
        Err(e) => return Err(e),
    };
    match token.token_type {
        TokenType::QuestionMark => {
            let inner = match parse_type(parser) {
                    Ok(t) => Box::new(t),
                    Err(e) => return Err(e),
                };
            let span = Span::join(token.span, inner.span);
            Ok(
                TypeNode {
                    span,
                    typ: Type::Optional(OptionalNode { question_mark: token, of: inner, span }),
                },
            )
        },
        TokenType::Primitive(Primitive::String) => Ok(TypeNode { span: token.span, typ: Type::String(token) }),
        TokenType::Primitive(Primitive::Bool) => Ok(TypeNode { span: token.span, typ: Type::Bool(token) }),
        TokenType::Ampersand => {
            let mut_opt = match parser.consume_if(TokenType::Keyword(Keyword::Mut)) {
                Ok(m) => m,
                Err(e) => return Err(e),
            };
            if let Some(mut_token) = mut_opt {
                let of = match parse_type(parser) {
                    Ok(t) => Box::new(t),
                    Err(e) => return Err(e),
                };
                Ok(
                    TypeNode {
                        span: token.span,
                        typ: Type::MutRef(MutRefNode { span: token.span, ref_token: token, mut_token, of }),
                    },
                )
            } else {
                let of = match parse_type(parser) {
                    Ok(t) => Box::new(t),
                    Err(e) => return Err(e),
                };
                Ok(
                    TypeNode {
                        span: token.span,
                        typ: Type::SharedRef(SharedRefNode { span: token.span, ref_token: token, of }),
                    },
                )
            }
        },
        TokenType::DoubleAmpersand => {
            let span1 = Span::between(token.span.from, token.span.from);
            let span2 = Span::between(token.span.to, token.span.to);
            let outer_ref = Token::new(TokenType::Ampersand, String::from_str("&"), span1);
            let inner_ref = Token::new(TokenType::Ampersand, String::from_str("&"), span2);
            let mut_opt = match parser.consume_if(TokenType::Keyword(Keyword::Mut)) {
                Ok(m) => m,
                Err(e) => return Err(e),
            };
            let typ = if let Some(mut_token) = mut_opt {
                let of = match parse_type(parser) {
                    Ok(t) => Box::new(t),
                    Err(e) => return Err(e),
                };
                Type::MutRef(
                    MutRefNode {
                        span: Span::join(span2, mut_token.span),
                        ref_token: inner_ref,
                        mut_token,
                        of,
                    },
                )
            } else {
                let of = match parse_type(parser) {
                    Ok(t) => Box::new(t),
                    Err(e) => return Err(e),
                };
                Type::SharedRef(SharedRefNode { span: span2, ref_token: inner_ref, of })
            };
            let inner = TypeNode { span: span2, typ };
            let ghost inner_v = type_node_view(inner);
            let res = TypeNode {
                span: span1,
                typ: Type::SharedRef(
                    SharedRefNode { span: span1, ref_token: outer_ref, of: Box::new(inner) },
                ),
            };
            assert(type_node_view(res).typ == (SpecType::SharedRef { span: span1, ref_token: outer_ref@, of: Box::new(inner_v) }));
            assert(type_node_view(res) == parse_type_s(old(parser).ts(), old(parser).index as nat)->Done_0);
            Ok(res)
        },
        _ => {
            Err(ParseError::Unsupported)
        },
    }
}

} // verus!

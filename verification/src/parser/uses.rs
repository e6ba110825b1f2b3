//! Parsing `use` items.
use vstd::prelude::*;

use crate::lexer::token::{Keyword, Token, TokenType, TokenView};
use crate::parser::ast::{
    DestructInitUsePattern, InitUsePattern, ParentDirPrefixNode, PatternPrefix, RelPrefixNode,
    RootPrefixNode, UseNode, UsePattern, UsePatternDestruct, UsePatternNode, UsePatternPath,
};
use crate::parser::spec::{
    is_at, parse_destruct_init_use_pattern_s, parse_destruct_list_s, parse_init_use_pattern_s,
    parse_parent_dirs_s, parse_prefix_s, parse_use_pattern_s, parse_use_s, spunct_push,
};
use crate::parser::view::{
    destruct_node_view, destruct_punct_view, init_pattern_view, opt_tok, parent_dirs_view,
    prefix_view, use_node_view, use_pattern_node_view, SpecDestructUsePatternNode, SpecPunct,
};
use crate::parser::{outcome, ParseError, Parser};
use crate::punctuated::Punctuated;
use crate::span::Span;

verus! {

/// Appending to a punctuated sequence of destructured patterns appends to
/// its view.
pub(crate) proof fn lemma_destruct_push(
    old_p: Punctuated<Box<UsePatternNode<DestructInitUsePattern>>, Token>,
    new_p: Punctuated<Box<UsePatternNode<DestructInitUsePattern>>, Token>,
    d: Option<Token>,
    v: Box<UsePatternNode<DestructInitUsePattern>>,
)
    requires
        new_p is NonEmpty,
        d is None ==> new_p->first == v && new_p->rest@.len() == 0 && new_p->trailing is None,
        d is Some ==> old_p is NonEmpty && new_p->first == old_p->first && new_p->rest@
            == old_p->rest@.push((d->0, v)) && new_p->trailing == old_p->trailing,
    ensures
        destruct_punct_view(new_p) == spunct_push(destruct_punct_view(old_p), opt_tok(d), destruct_node_view(*v)),
{
    match d {
        None => {
            assert(destruct_punct_view(new_p)->rest =~= Seq::<(TokenView, SpecDestructUsePatternNode)>::empty());
        },
        Some(dd) => {
            assert(destruct_punct_view(new_p)->rest =~= destruct_punct_view(old_p)->rest.push(
                (dd@, destruct_node_view(*v)),
            ));
        },
    }
}

/// Parses `pub? use prefix? pattern`, with `public` the `pub` token already
/// read, if any (see `parse_use_s`).
pub fn parse_use(parser: &mut Parser, public: Option<Token>) -> (r: Result<UseNode, ParseError>)
    requires
        old(parser).wf(),
    ensures
        old(parser).same_source(*final(parser)),
        outcome(
            r,
            parse_use_s(old(parser).ts(), old(parser).index as nat, opt_tok(public)),
            |u: UseNode| use_node_view(u),
            final(parser).index,
        ),
{
    let ghost ts = old(parser).ts();
    let use_token = match parser.consume(TokenType::Keyword(Keyword::Use)) {
        Ok(t) => t,
        Err(e) => return Err(e),
    };
    let ghost k0 = parser.index as nat;
    let pattern_prefix = if parser.scan_two(TokenType::Tilde, TokenType::ForwardSlash) {
        let tilde = match parser.consume(TokenType::Tilde) {
            Ok(t) => t,
            Err(e) => return Err(e),
        };
        let forward_slash = match parser.consume(TokenType::ForwardSlash) {
            Ok(t) => t,
            Err(e) => return Err(e),
        };
        Some(
            PatternPrefix::Root(
                RootPrefixNode { span: Span::join(tilde.span, forward_slash.span), tilde, forward_slash },
            ),
        )
    } else if parser.scan_two(TokenType::DoublePeriod, TokenType::ForwardSlash) {
        let mut parent_dirs: Vec<ParentDirPrefixNode> = Vec::new();
        let mut parent_span: Option<Span> = None;
        assert(parent_dirs_view(parent_dirs@) =~= Seq::empty());
        while parser.scan_two(TokenType::DoublePeriod, TokenType::ForwardSlash)
            invariant
                parser.wf(),
                parser.tokens == old(parser).tokens,
                parser.require_impl == old(parser).require_impl,
                parser.ts() == ts,
                k0 <= parser.index,
                parser.index > k0 ==> parent_span is Some,
                parser.index == k0 ==> is_at(ts, k0, TokenType::DoublePeriod) && is_at(
                    ts,
                    k0 + 1,
                    TokenType::ForwardSlash,
                ),
                parse_parent_dirs_s(ts, parser.index as nat, parent_dirs_view(parent_dirs@), parent_span)
                    == parse_parent_dirs_s(ts, k0, Seq::empty(), None),
            decreases parser.tokens@.len() - parser.index,
        {
            let double_period = match parser.consume(TokenType::DoublePeriod) {
                Ok(t) => t,
                Err(e) => return Err(e),
            };
            let forward_slash = match parser.consume(TokenType::ForwardSlash) {
                Ok(t) => t,
                Err(e) => return Err(e),
            };
            let span = Span::join(double_period.span, forward_slash.span);
            let ghost before = parent_dirs@;
            parent_dirs.push(ParentDirPrefixNode { span, double_period, forward_slash });
            assert(parent_dirs_view(parent_dirs@) =~= parent_dirs_view(before).push(
                crate::parser::view::parent_dir_view(parent_dirs@.last()),
            ));
            parent_span = Some(Span::join_opt(parent_span, span));
        }
        let span = match parent_span {
            Some(s) => s,
            None => {
                proof {
                    assert(false);
                }
                use_token.span
            },
        };
        Some(PatternPrefix::Rel(RelPrefixNode { parent_dirs, span }))
    } else {
        None
    };
    assert(parse_prefix_s(ts, k0) == (prefix_view(pattern_prefix), parser.index as nat));
    let use_pattern = match parse_init_use_pattern(parser) {
        Ok(p) => p,
        Err(e) => return Err(e),
    };
    let span = if let Some(public) = &public {
        Span::join(public.span, use_pattern.span)
    } else {
        Span::join(use_token.span, use_pattern.span)
    };
    Ok(UseNode { public, use_token, pattern_prefix, use_pattern, span })
}

/// Parses the first segment of a use pattern: `name` or `name::rest` (see
/// `parse_init_use_pattern_s`).
pub fn parse_init_use_pattern(parser: &mut Parser) -> (r: Result<UsePatternNode<InitUsePattern>, ParseError>)
    requires
        old(parser).wf(),
    ensures
        old(parser).same_source(*final(parser)),
        outcome(
            r,
            parse_init_use_pattern_s(old(parser).ts(), old(parser).index as nat),
            |p: UsePatternNode<InitUsePattern>| init_pattern_view(p),
            final(parser).index,
        ),
{
    let token = match parser.consume(TokenType::Identifier) {
        Ok(t) => t,
        Err(e) => return Err(e),
    };
    let delim = match parser.consume_if(TokenType::DoubleColon) {
        Ok(d) => d,
        Err(e) => return Err(e),
    };
    if let Some(delim) = delim {
        let rhs = match parse_use_pattern(parser) {
            Ok(p) => p,
            Err(e) => return Err(e),
        };
        Ok(
            UsePatternNode {
                span: Span::join(token.span, rhs.span),
                use_pattern: InitUsePattern::Path(
                    UsePatternPath { parent_name: token, delim, rhs: Box::new(rhs) },
                ),
            },
        )
    } else {
        Ok(UsePatternNode { span: token.span, use_pattern: InitUsePattern::Id(token) })
    }
}

/// Parses a use pattern segment: `name`, `name::rest`, `*` or `{ ... }`
/// (see `parse_use_pattern_s`).
pub fn parse_use_pattern(parser: &mut Parser) -> (r: Result<UsePatternNode, ParseError>)
    requires
        old(parser).wf(),
    ensures
        old(parser).same_source(*final(parser)),
        outcome(
            r,
            parse_use_pattern_s(old(parser).ts(), old(parser).index as nat),
            |p: UsePatternNode| use_pattern_node_view(p),
            final(parser).index,
        ),
    decreases old(parser).tokens@.len() - old(parser).index, 0nat,
{
    let ghost ts = old(parser).ts();
    let ghost i = old(parser).index as nat;
    let token = match parser.consume_current() {
        Ok(t) => t,
        Err(e) => return Err(e),
    };
    match token.token_type {
        TokenType::Identifier => {
            let delim = match parser.consume_if(TokenType::DoubleColon) {
                Ok(d) => d,
                Err(e) => return Err(e),
            };
            if let Some(delim) = delim {
                let rhs = match parse_use_pattern(parser) {
                    Ok(p) => p,
                    Err(e) => return Err(e),
                };
                Ok(
                    UsePatternNode {
                        span: Span::join(token.span, rhs.span),
                        use_pattern: UsePattern::Path(
                            UsePatternPath { parent_name: token, delim, rhs: Box::new(rhs) },
                        ),
                    },
                )
            } else {
                Ok(UsePatternNode { span: token.span, use_pattern: UsePattern::Id(token) })
            }
        },
        TokenType::Asterisk => Ok(UsePatternNode { span: token.span, use_pattern: UsePattern::Wild(token) }),
        TokenType::OpenBrace => {
            let mut patterns: Punctuated<Box<UsePatternNode<DestructInitUsePattern>>, Token> =
                Punctuated::new();
            let mut prev_comma: Option<Token> = None;
            while !parser.scan_one(TokenType::CloseBrace)
                invariant
                    parser.wf(),
                    parser.tokens == old(parser).tokens,
                    parser.require_impl == old(parser).require_impl,
                    parser.ts() == ts,
                    ts == old(parser).ts(),
                    i == old(parser).index,
                    i + 1 <= parser.index,
                    is_at(ts, i, TokenType::OpenBrace),
                    prev_comma is Some ==> patterns is NonEmpty,
                    parse_destruct_list_s(ts, parser.index as nat, destruct_punct_view(patterns), opt_tok(prev_comma))
                        == parse_destruct_list_s(ts, i + 1, SpecPunct::Empty, None),
                decreases parser.tokens@.len() - parser.index,
            {
                let k_exec = parser.index;
                let pattern = match parse_destruct_init_use_pattern(parser) {
                    Ok(p) => Box::new(p),
                    Err(e) => return Err(e),
                };
                if prev_comma.is_none() != patterns.is_empty() {
                    return Err(ParseError::Unsupported);
                }
                let ghost old_patterns = patterns;
                let ghost pattern_g = pattern;
                let ghost comma_g = prev_comma;
                if let Some(prev_comma) = prev_comma {
                    patterns.push_delim(prev_comma, pattern);
                } else {
                    patterns.push_first(pattern);
                }
                proof {
                    lemma_destruct_push(old_patterns, patterns, comma_g, pattern_g);
                }
                prev_comma = match parser.consume_if(TokenType::Comma) {
                    Ok(c) => c,
                    Err(e) => return Err(e),
                };
                if parser.index <= k_exec {
                    return Err(ParseError::Unsupported);
                }
            }
            let close_brace = match parser.consume(TokenType::CloseBrace) {
                Ok(t) => t,
                Err(e) => return Err(e),
            };
            Ok(
                UsePatternNode {
                    span: Span::join(token.span, close_brace.span),
                    use_pattern: UsePattern::Destruct(
                        UsePatternDestruct { open_brace: token, patterns, close_brace },
                    ),
                },
            )
        },
        _ => {
            Err(ParseError::Unsupported)
        },
    }
}

/// Parses a pattern inside `{ ... }`: `self`, `*`, `name` or `name::rest`
/// (see `parse_destruct_init_use_pattern_s`).
pub fn parse_destruct_init_use_pattern(parser: &mut Parser) -> (r: Result<
    UsePatternNode<DestructInitUsePattern>,
    ParseError,
>)
    requires
        old(parser).wf(),
    ensures
        old(parser).same_source(*final(parser)),
        outcome(
            r,
            parse_destruct_init_use_pattern_s(old(parser).ts(), old(parser).index as nat),
            |p: UsePatternNode<DestructInitUsePattern>| destruct_node_view(p),
            final(parser).index,
        ),
    decreases old(parser).tokens@.len() - old(parser).index, 1nat,
{
    let self_token = match parser.consume_if(TokenType::Keyword(Keyword::Self_)) {
        Ok(t) => t,
        Err(e) => return Err(e),
    };
    if let Some(self_) = self_token {
        return Ok(UsePatternNode { span: self_.span, use_pattern: DestructInitUsePattern::Self_(self_) });
    }
    let wild_token = match parser.consume_if(TokenType::Asterisk) {
        Ok(t) => t,
        Err(e) => return Err(e),
    };
    if let Some(wild) = wild_token {
        return Ok(UsePatternNode { span: wild.span, use_pattern: DestructInitUsePattern::Wild(wild) });
    }
    let token = match parser.consume(TokenType::Identifier) {
        Ok(t) => t,
        Err(e) => return Err(e),
    };
    let delim = match parser.consume_if(TokenType::DoubleColon) {
        Ok(d) => d,
        Err(e) => return Err(e),
    };
    if let Some(delim) = delim {
        let rhs = match parse_use_pattern(parser) {
            Ok(p) => p,
            Err(e) => return Err(e),
        };
        Ok(
            UsePatternNode {
                span: Span::join(token.span, rhs.span),
                use_pattern: DestructInitUsePattern::Path(
                    UsePatternPath { parent_name: token, delim, rhs: Box::new(rhs) },
                ),
            },
        )
    } else {
        Ok(UsePatternNode { span: token.span, use_pattern: DestructInitUsePattern::Id(token) })
    }
}

} // verus!

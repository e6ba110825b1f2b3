//! Parsing items, function definitions and whole files.
use vstd::prelude::*;

use crate::lexer::token::{Keyword, Token, TokenType, TokenView};
use crate::parser::ast::{
    FerrumFileAst, FileType, FnDefBlockNode, FnDefBody, FnDefNode, FnDefParamNode, FnDefStmtNode,
    Item, ItemNode, TypeNode,
};
use crate::parser::expr::parse_expr;
use crate::parser::spec::{
    exports_item, file_span, is_at, items_continue, parse_file_s, parse_fn_body_s, parse_fn_def_s, parse_fn_sig_s,
    parse_item_s, parse_items_while_s, parse_params_s, spunct_push, spunct_trail, Parsed, SpecFnSig,
};
use crate::parser::stmt::parse_statement;
use crate::parser::types::parse_type;
use crate::parser::uses::parse_use;
use crate::parser::view::{
    file_view, fn_body_view, fn_def_view, item_node_view, item_view, items_view, opt_tok, opt_type_view,
    param_punct_view, param_view, SpecFnDefParamNode, SpecItem, SpecPunct,
};
use crate::parser::{outcome, ParseError, Parser};
use crate::punctuated::Punctuated;
use crate::scope::ScopeTable;
use crate::span::{Span, SpanPoint};

verus! {

/// Appending to a punctuated sequence of parameters appends to its view.
proof fn lemma_param_push(
    old_p: Punctuated<FnDefParamNode, Token>,
    new_p: Punctuated<FnDefParamNode, Token>,
    d: Option<Token>,
    v: FnDefParamNode,
)
    requires
        new_p is NonEmpty,
        d is None ==> new_p->first == v && new_p->rest@.len() == 0 && new_p->trailing is None,
        d is Some ==> old_p is NonEmpty && new_p->first == old_p->first && new_p->rest@
            == old_p->rest@.push((d->0, v)) && new_p->trailing == old_p->trailing,
    ensures
        param_punct_view(new_p) == spunct_push(param_punct_view(old_p), opt_tok(d), param_view(v)),
{
    match d {
        None => {
            assert(param_punct_view(new_p)->rest =~= Seq::<(TokenView, SpecFnDefParamNode)>::empty());
        },
        Some(dd) => {
            assert(param_punct_view(new_p)->rest =~= param_punct_view(old_p)->rest.push(
                (dd@, param_view(v)),
            ));
        },
    }
}

/// The part of a function definition before its body.
struct FnSig {
    fn_token: Token,
    name: Token,
    open_paren: Token,
    params: Punctuated<FnDefParamNode, Token>,
    close_paren: Token,
    return_type: Option<(Token, TypeNode)>,
}

spec fn sig_view(s: FnSig) -> SpecFnSig {
    SpecFnSig {
        fn_token: s.fn_token@,
        name: s.name@,
        open_paren: s.open_paren@,
        params: param_punct_view(s.params),
        close_paren: s.close_paren@,
        return_type: opt_type_view(s.return_type),
    }
}

/// Parses `fn name(params) (-> type)?` (see `parse_fn_sig_s`).
fn parse_fn_sig(parser: &mut Parser) -> (r: Result<FnSig, ParseError>)
    requires
        old(parser).wf(),
    ensures
        old(parser).same_source(*final(parser)),
        outcome(
            r,
            parse_fn_sig_s(old(parser).ts(), old(parser).index as nat),
            |s: FnSig| sig_view(s),
            final(parser).index,
        ),
{
    let ghost ts = old(parser).ts();
    let ghost i = old(parser).index as nat;
    let fn_token = match parser.consume(TokenType::Keyword(Keyword::Fn)) {
        Ok(t) => t,
        Err(e) => return Err(e),
    };
    let name = match parser.consume(TokenType::Identifier) {
        Ok(t) => t,
        Err(e) => return Err(e),
    };
    let open_paren = match parser.consume(TokenType::OpenParenthesis) {
        Ok(t) => t,
        Err(e) => return Err(e),
    };
    let mut params: Punctuated<FnDefParamNode, Token> = Punctuated::new();
    let mut prev_comma: Option<Token> = None;
    while !parser.scan_one(TokenType::CloseParenthesis)
        invariant
            parser.wf(),
            parser.tokens == old(parser).tokens,
            parser.require_impl == old(parser).require_impl,
            parser.ts() == ts,
            ts == old(parser).ts(),
            i == old(parser).index,
            i + 3 <= parser.index,
            is_at(ts, i, TokenType::Keyword(Keyword::Fn)),
            is_at(ts, i + 1, TokenType::Identifier),
            is_at(ts, i + 2, TokenType::OpenParenthesis),
            prev_comma is Some ==> params is NonEmpty,
            parse_params_s(ts, parser.index as nat, param_punct_view(params), opt_tok(prev_comma))
                == parse_params_s(ts, i + 3, SpecPunct::Empty, None),
        decreases parser.tokens@.len() - parser.index,
    {
        let k_exec = parser.index;
        let param_name = match parser.consume(TokenType::Identifier) {
            Ok(t) => t,
            Err(e) => return Err(e),
        };
        let colon = match parser.consume(TokenType::Colon) {
            Ok(t) => t,
            Err(e) => return Err(e),
        };
        let param_type = match parse_type(parser) {
            Ok(t) => t,
            Err(e) => return Err(e),
        };
        let default_value = if parser.scan_one(TokenType::Equals) {
            let eq = match parser.consume(TokenType::Equals) {
                Ok(t) => t,
                Err(e) => return Err(e),
            };
            let expr = match parse_expr(parser) {
                Ok(e) => e,
                Err(e) => return Err(e),
            };
            Some((eq, expr))
        } else {
            None
        };
        let span = if let Some((_, expr)) = &default_value {
            Span::join(param_name.span, expr.span)
        } else {
            Span::join(param_name.span, param_type.span)
        };
        let param = FnDefParamNode { span, name: param_name, colon, param_type, default_value };
        if prev_comma.is_none() != params.is_empty() {
            return Err(ParseError::Unsupported);
        }
        let ghost old_params = params;
        let ghost param_g = param;
        let ghost comma_g = prev_comma;
        params.push(prev_comma, param);
        proof {
            lemma_param_push(old_params, params, comma_g, param_g);
        }
        prev_comma = match parser.consume_if(TokenType::Comma) {
            Ok(c) => c,
            Err(e) => return Err(e),
        };
        if parser.index <= k_exec {
            return Err(ParseError::Unsupported);
        }
    }
    let ghost before_trail = params;
    if let Some(prev_comma) = prev_comma {
        params.push_trailing(prev_comma);
    }
    assert(param_punct_view(params) == spunct_trail(param_punct_view(before_trail), opt_tok(prev_comma)));
    let close_paren = match parser.consume(TokenType::CloseParenthesis) {
        Ok(t) => t,
        Err(e) => return Err(e),
    };
    let return_type = if parser.scan_one(TokenType::SkinnyArrow) {
        let arrow = match parser.consume(TokenType::SkinnyArrow) {
            Ok(t) => t,
            Err(e) => return Err(e),
        };
        let typ = match parse_type(parser) {
            Ok(t) => t,
            Err(e) => return Err(e),
        };
        Some((arrow, typ))
    } else {
        None
    };
    Ok(FnSig { fn_token, name, open_paren, params, close_paren, return_type })
}

/// Whether any of the items is exported (`pub`).
fn exec_exports_item(items: &Vec<ItemNode>) -> (b: bool)
    ensures
        b == exports_item(items_view(items@)),
{
    let mut k: usize = 0;
    while k < items.len()
        invariant
            k <= items@.len(),
            forall|j: int| 0 <= j < k ==> match #[trigger] items_view(items@)[j].item {
                SpecItem::Use(u) => u.public is None,
                SpecItem::FnDef(f) => f.pub_token is None,
                SpecItem::Statement(_) => true,
            },
        decreases items@.len() - k,
    {
        let exported = match &items[k].item {
            Item::Use(u) => u.public.is_some(),
            Item::FnDef(f) => f.pub_token.is_some(),
            Item::Statement(_) => false,
        };
        if exported {
            assert(items_view(items@)[k as int].item == item_view(items@[k as int].item));
            return true;
        }
        k = k + 1;
    }
    false
}

/// Parses the body of a function: `=> statement`, or items ended by `;`,
/// none of them exported (see `parse_fn_body_s`); also gives the span of
/// the whole definition, which starts at `start`.
fn parse_fn_body(parser: &mut Parser, start: Span) -> (r: Result<(FnDefBody, Span), ParseError>)
    requires
        old(parser).wf(),
    ensures
        old(parser).same_source(*final(parser)),
        outcome(
            r,
            parse_fn_body_s(old(parser).ts(), old(parser).index as nat, start),
            |b: (FnDefBody, Span)| (fn_body_view(b.0), b.1),
            final(parser).index,
        ),
    decreases old(parser).tokens@.len() - old(parser).index, 7nat,
{
    let fat_arrow = match parser.consume_if(TokenType::FatArrow) {
        Ok(t) => t,
        Err(e) => return Err(e),
    };
    if let Some(fat_arrow) = fat_arrow {
        let stmt = match parse_statement(parser) {
            Ok(s) => s,
            Err(e) => return Err(e),
        };
        let body_span = Span::join(fat_arrow.span, stmt.span);
        let span = Span::join(start, body_span);
        let item = ItemNode { span: stmt.span, item: Item::Statement(stmt) };
        Ok((FnDefBody::Stmt(FnDefStmtNode { fat_arrow, stmt: Box::new(item), span }), span))
    } else {
        let items = match parse_items_while(parser, true) {
            Ok(items) => items,
            Err(e) => return Err(e),
        };
        if exec_exports_item(&items) {
            return Err(ParseError::Unsupported);
        }
        let close_semicolon = match parser.consume(TokenType::Semicolon) {
            Ok(t) => t,
            Err(e) => return Err(e),
        };
        let block_span = if items.len() > 0 {
            Span::join(items[0].span, close_semicolon.span)
        } else {
            close_semicolon.span
        };
        let span = Span::join(start, block_span);
        let ghost items_g = items@;
        let body = FnDefBody::Block(FnDefBlockNode { items, close_semicolon, span: block_span });
        assert(fn_body_view(body)->Block_items =~= items_view(items_g));
        Ok((body, span))
    }
}

/// Parses `fn name(params) (-> type)? (=> statement | items ;)`, the `fn`
/// at the current token, with `pub_token` the `pub` before it, if any (see
/// `parse_fn_def_s`).
pub fn parse_fn_def(parser: &mut Parser, pub_token: Option<Token>) -> (r: Result<FnDefNode, ParseError>)
    requires
        old(parser).wf(),
    ensures
        old(parser).same_source(*final(parser)),
        outcome(
            r,
            parse_fn_def_s(old(parser).ts(), old(parser).index as nat, opt_tok(pub_token)),
            |f: FnDefNode| fn_def_view(f),
            final(parser).index,
        ),
    decreases old(parser).tokens@.len() - old(parser).index, 4nat,
{
    let i_exec = parser.index;
    let sig = match parse_fn_sig(parser) {
        Ok(s) => s,
        Err(e) => return Err(e),
    };
    if parser.index <= i_exec {
        return Err(ParseError::Unsupported);
    }
    let start = if let Some(pub_token) = &pub_token {
        pub_token.span
    } else {
        sig.fn_token.span
    };
    let (body, span) = match parse_fn_body(parser, start) {
        Ok(b) => b,
        Err(e) => return Err(e),
    };
    let node = FnDefNode {
        pub_token,
        fn_token: sig.fn_token,
        name: sig.name,
        open_paren: sig.open_paren,
        params: sig.params,
        close_paren: sig.close_paren,
        return_type: sig.return_type,
        body,
        scope: ScopeTable::new(),
        span,
    };
    assert(crate::parser::view::scope_table_view(node.scope) =~= Seq::empty());
    Ok(node)
}

/// Whether items are read at the parser's position (see `items_continue`).
fn exec_items_continue(parser: &Parser, until_semicolon: bool) -> (b: bool)
    requires
        parser.wf(),
    ensures
        b == items_continue(parser.ts(), parser.index as nat, until_semicolon),
{
    if until_semicolon {
        !parser.scan_one(TokenType::Semicolon)
    } else {
        parser.index < parser.tokens.len()
    }
}

/// Parses items, up to a `;` where `until_semicolon` holds, else up to the
/// end of the tokens (see `parse_items_while_s`).
pub fn parse_items_while(parser: &mut Parser, until_semicolon: bool) -> (r: Result<Vec<ItemNode>, ParseError>)
    requires
        old(parser).wf(),
    ensures
        old(parser).same_source(*final(parser)),
        outcome(
            r,
            parse_items_while_s(old(parser).ts(), old(parser).index as nat, until_semicolon, true, Seq::empty()),
            |v: Vec<ItemNode>| items_view(v@),
            final(parser).index,
        ),
    decreases old(parser).tokens@.len() - old(parser).index, 6nat,
{
    let ghost ts = old(parser).ts();
    let ghost i = old(parser).index as nat;
    let mut items: Vec<ItemNode> = Vec::new();
    let mut allow_uses = true;
    assert(items_view(items@) =~= Seq::empty());
    while exec_items_continue(parser, until_semicolon)
        invariant
            parser.wf(),
            parser.tokens == old(parser).tokens,
            parser.require_impl == old(parser).require_impl,
            parser.ts() == ts,
            ts == old(parser).ts(),
            i == old(parser).index,
            i <= parser.index,
            parse_items_while_s(ts, parser.index as nat, until_semicolon, allow_uses, items_view(items@))
                == parse_items_while_s(ts, i, until_semicolon, true, Seq::empty()),
        decreases parser.tokens@.len() - parser.index,
    {
        let k_exec = parser.index;
        let item = match parse_item(parser) {
            Ok(item) => item,
            Err(e) => return Err(e),
        };
        let is_use = match &item.item {
            Item::Use(_) => true,
            _ => false,
        };
        if (is_use && !allow_uses) || parser.index <= k_exec {
            return Err(ParseError::Unsupported);
        }
        allow_uses = allow_uses && is_use;
        let ghost before = items@;
        items.push(item);
        assert(items_view(items@) =~= items_view(before).push(item_node_view(items@.last())));
    }
    Ok(items)
}

/// Parses an item: `pub? use ...`, `pub? fn ...` or a statement, which
/// nothing may follow on its last line (see `parse_item_s`).
#[verifier::rlimit(40)]
pub fn parse_item(parser: &mut Parser) -> (r: Result<ItemNode, ParseError>)
    requires
        old(parser).wf(),
    ensures
        old(parser).same_source(*final(parser)),
        outcome(
            r,
            parse_item_s(old(parser).ts(), old(parser).index as nat),
            |n: ItemNode| item_node_view(n),
            final(parser).index,
        ),
    decreases old(parser).tokens@.len() - old(parser).index, 5nat,
{
    let public = match parser.consume_if(TokenType::Keyword(Keyword::Pub)) {
        Ok(p) => p,
        Err(e) => return Err(e),
    };
    let token = match parser.current() {
        Ok(t) => t,
        Err(e) => return Err(e),
    };
    let item = match token.token_type {
        TokenType::Keyword(Keyword::Use) => {
            let use_node = match parse_use(parser, public) {
                Ok(u) => u,
                Err(e) => return Err(e),
            };
            ItemNode { span: use_node.span, item: Item::Use(use_node) }
        },
        TokenType::Keyword(Keyword::Fn) => {
            let fn_definition = match parse_fn_def(parser, public) {
                Ok(f) => f,
                Err(e) => return Err(e),
            };
            ItemNode { span: fn_definition.span, item: Item::FnDef(fn_definition) }
        },
        _ => {
            if let Some(public) = public {
                return Err(ParseError::UnexpectedToken(public));
            }
            let statement = match parse_statement(parser) {
                Ok(s) => s,
                Err(e) => return Err(e),
            };
            ItemNode { span: statement.span, item: Item::Statement(statement) }
        },
    };
    match parser.expect_newline(item.span.to.line) {
        Ok(_) => {},
        Err(e) => return Err(e),
    }
    Ok(item)
}

/// Parses a whole file of tokens from the parser's position: its items up
/// to the end of the tokens (see `parse_file_s`).
pub fn parse_file(parser: &mut Parser) -> (r: Result<FerrumFileAst, ParseError>)
    requires
        old(parser).wf(),
    ensures
        old(parser).same_source(*final(parser)),
        outcome(
            r,
            parse_file_s(old(parser).ts(), old(parser).index as nat, old(parser).require_impl),
            |f: FerrumFileAst| file_view(f),
            final(parser).index,
        ),
{
    let file_type = if parser.require_impl {
        FileType::Ferrum
    } else {
        FileType::LocalRustBind
    };
    let items = match parse_items_while(parser, false) {
        Ok(items) => items,
        Err(e) => return Err(e),
    };
    let n = parser.tokens.len();
    let span = if n == 0 {
        Span::between(SpanPoint::at(0, 0), SpanPoint::at(0, 0))
    } else if n == 1 {
        parser.tokens[0].span
    } else {
        Span::join(parser.tokens[0].span, parser.tokens[n - 1].span)
    };
    assert(span == file_span(parser.ts()));
    let file = FerrumFileAst { file_type, items, pub_api: ScopeTable::new(), scope: ScopeTable::new(), span };
    assert(crate::parser::view::scope_table_view(file.scope) =~= Seq::empty());
    assert(crate::parser::view::scope_table_view(file.pub_api) =~= Seq::empty());
    Ok(file)
}

/// The syntax tree of a Ferrum source file's tokens (see `parse_file_s`).
pub fn parse_to_ast(tokens: Vec<Token>) -> (r: Result<FerrumFileAst, ParseError>)
    requires
        tokens@.len() < usize::MAX,
    ensures
        match (parse_file_s(crate::lexer::token::token_views(tokens@), 0, true), r) {
            (Parsed::Done(f, _), Ok(x)) => file_view(x) == f,
            (Parsed::Fail(e, _), Err(x)) => crate::parser::err_view(x) == e && !(x is Unsupported),
            (Parsed::Stuck, Err(x)) => x is Unsupported,
            _ => false,
        },
{
    let mut parser = Parser::new(true, tokens);
    parse_file(&mut parser)
}

/// The syntax tree of the tokens of a file of bindings to local Rust code,
/// whose functions need no bodies (see `parse_file_s`).
pub fn parse_rust_bindings_to_ast(tokens: Vec<Token>) -> (r: Result<FerrumFileAst, ParseError>)
    requires
        tokens@.len() < usize::MAX,
    ensures
        match (parse_file_s(crate::lexer::token::token_views(tokens@), 0, false), r) {
            (Parsed::Done(f, _), Ok(x)) => file_view(x) == f,
            (Parsed::Fail(e, _), Err(x)) => crate::parser::err_view(x) == e && !(x is Unsupported),
            (Parsed::Stuck, Err(x)) => x is Unsupported,
            _ => false,
        },
{
    let mut parser = Parser::new(false, tokens);
    parse_file(&mut parser)
}

} // verus!

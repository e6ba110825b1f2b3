//! What the parser gives for every input, stated over its mathematical
//! functions.
use vstd::prelude::*;

use crate::lexer::token::{Keyword, TokenType, TokenView};
use crate::parser::spec::{is_at, parse_assign_decl_s, parse_ident_expr_s, Parsed};
use crate::parser::view::{SpecExpr, SpecExprNode, SpecIdentLookupNode, SpecStatement};

verus! {

/// An expression that starts with a name: followed by `(`, it is a call of
/// that name; followed by `::`, an access through that name; followed by
/// anything else, the name itself, which is all that is read.
pub proof fn lemma_ident_expr_shapes(ts: Seq<TokenView>, i: nat)
    requires
        i < ts.len(),
        ts[i as int].token_type == TokenType::Identifier,
    ensures
        is_at(ts, i + 1, TokenType::OpenParenthesis) ==> (parse_ident_expr_s(ts, i) matches Parsed::Done(e, _)
            ==> e.expr matches SpecExpr::FnCall(c) && c.name == ts[i as int]),
        !is_at(ts, i + 1, TokenType::OpenParenthesis) && is_at(ts, i + 1, TokenType::DoubleColon) ==> (
        parse_ident_expr_s(ts, i) matches Parsed::Done(e, _) ==> e.expr matches SpecExpr::StaticAccess {
            lhs,
            ..
        } && lhs.name == ts[i as int]),
        !is_at(ts, i + 1, TokenType::OpenParenthesis) && !is_at(ts, i + 1, TokenType::DoubleColon)
            ==> parse_ident_expr_s(ts, i) == Parsed::Done(
            SpecExprNode {
                span: ts[i as int].span,
                expr: SpecExpr::IdentLookup(SpecIdentLookupNode { name: ts[i as int], span: ts[i as int].span }),
            },
            i + 1,
        ),
{
}

/// A declaration starts at the token where it is parsed, which is `const`
/// or `let`; it is constant exactly when that token is `const`.
pub proof fn lemma_decl_const_iff_const_token(ts: Seq<TokenView>, i: nat)
    ensures
        parse_assign_decl_s(ts, i) matches Parsed::Done(st, _) ==> st.statement matches SpecStatement::Decl(d) && {
            &&& d.decl_token == ts[i as int]
            &&& d.decl_token.token_type == TokenType::Keyword(Keyword::Const) || d.decl_token.token_type
                == TokenType::Keyword(Keyword::Let)
            &&& d.is_const <==> d.decl_token.token_type == TokenType::Keyword(Keyword::Const)
        },
{
}

/// A declaration binds the name right after its keyword; its type, when
/// there is one, follows a `:` right after that name, and there is none
/// when no `:` follows; its value, when there is one, follows a `=`.
pub proof fn lemma_decl_shape(ts: Seq<TokenView>, i: nat)
    ensures
        parse_assign_decl_s(ts, i) matches Parsed::Done(st, _) ==> st.statement matches SpecStatement::Decl(d) && {
            &&& d.decl_pattern.id == ts[i + 1 as int]
            &&& d.decl_pattern.id.token_type == TokenType::Identifier
            &&& (d.explicit_type is None <==> !is_at(ts, i + 2, TokenType::Colon))
            &&& (d.explicit_type matches Some((c, _)) ==> c == ts[i + 2 as int])
            &&& (d.rhs_expr matches Some((e, _)) ==> e.token_type == TokenType::Equals)
        },
{
}

} // verus!

//! Copies of syntax-tree pieces that keep their views. A scope holds its
//! own copies of the types and parameters of the functions it names.
use vstd::prelude::*;

use crate::lexer::token::Token;
use crate::parser::ast::{
    CustomTypeNode, DerefNode, Expr, ExprNode, FnCallArgNode, FnCallNode, FnDefParamNode,
    GenericArgs, IdentLookupNode, Literal, LiteralNode, MutRefNode, OptionalNode, RefNode,
    SharedRefNode, StaticAccessNode, TemplateStringMiddleNode, TemplateStringNode, Type, TypeNode,
};
use crate::parser::view::{
    arg_punct_view, custom_type_view, expr_node_view, expr_view, fn_call_arg_view, fn_call_view,
    ident_lookup_view, literal_node_view, opt_expr_view, param_punct_view, param_view,
    type_node_view, type_punct_view, type_view, SpecExpr, SpecPunct,
};
use crate::punctuated::Punctuated;

verus! {

/// A copy of an optional token.
pub fn copy_opt_token(t: &Option<Token>) -> (r: Option<Token>)
    ensures
        match (r, *t) {
            (Some(a), Some(b)) => a@ == b@,
            (None, None) => true,
            _ => false,
        },
{
    match t {
        Some(t) => Some(t.duplicate()),
        None => None,
    }
}

/// A copy of a type node.
pub fn copy_type_node(t: &TypeNode) -> (r: TypeNode)
    ensures
        type_node_view(r) == type_node_view(*t),
    decreases *t, 1nat,
{
    TypeNode { typ: copy_type(&t.typ), span: t.span }
}

/// A boxed copy of a boxed type node.
fn copy_boxed_type(t: &Box<TypeNode>) -> (r: Box<TypeNode>)
    ensures
        type_node_view(*r) == type_node_view(**t),
    decreases **t, 2nat,
{
    Box::new(copy_type_node(&**t))
}

/// A copy of a type.
pub fn copy_type(t: &Type) -> (r: Type)
    ensures
        type_view(r) == type_view(*t),
    decreases *t, 0nat,
{
    match t {
        Type::Int(k) => Type::Int(k.duplicate()),
        Type::Uint(k) => Type::Uint(k.duplicate()),
        Type::Char(k) => Type::Char(k.duplicate()),
        Type::String(k) => Type::String(k.duplicate()),
        Type::Bool(k) => Type::Bool(k.duplicate()),
        Type::Array(of, k) => Type::Array(Box::new(copy_type_node(&**of)), k.duplicate()),
        Type::List(of) => Type::List(Box::new(copy_type_node(&**of))),
        Type::Custom(c) => Type::Custom(copy_custom_type(c)),
        Type::DynInstance(c) => Type::DynInstance(copy_custom_type(c)),
        Type::Scoped(a, b) => Type::Scoped(
            Box::new(copy_type_node(&**a)),
            Box::new(copy_type_node(&**b)),
        ),
        Type::SharedRef(r) => Type::SharedRef(
            SharedRefNode {
                ref_token: r.ref_token.duplicate(),
                of: Box::new(copy_type_node(&*r.of)),
                span: r.span,
            },
        ),
        Type::MutRef(r) => Type::MutRef(
            MutRefNode {
                ref_token: r.ref_token.duplicate(),
                mut_token: r.mut_token.duplicate(),
                of: Box::new(copy_type_node(&*r.of)),
                span: r.span,
            },
        ),
        Type::Managed(of) => Type::Managed(Box::new(copy_type_node(&**of))),
        Type::Optional(o) => Type::Optional(
            OptionalNode {
                question_mark: o.question_mark.duplicate(),
                of: Box::new(copy_type_node(&*o.of)),
                span: o.span,
            },
        ),
        Type::Result(r) => Type::Result(
            match r {
                Some(of) => Some(Box::new(copy_type_node(&**of))),
                None => None,
            },
        ),
    }
}

/// A copy of a named type with its generic arguments.
pub fn copy_custom_type(c: &CustomTypeNode) -> (r: CustomTypeNode)
    ensures
        custom_type_view(r) == custom_type_view(*c),
    decreases *c, 0nat,
{
    let generic_args = match &c.generic_args {
        Some(g) => {
            let args = copy_type_punct(&g.args);
            Some(
                GenericArgs {
                    open_chevron: g.open_chevron.duplicate(),
                    args,
                    close_chevron: g.close_chevron.duplicate(),
                    span: g.span,
                },
            )
        },
        None => None,
    };
    CustomTypeNode { name: c.name.duplicate(), generic_args, span: c.span }
}

/// A copy of a comma-separated list of types.
fn copy_type_punct(p: &Punctuated<Box<TypeNode>, Token>) -> (r: Punctuated<Box<TypeNode>, Token>)
    ensures
        type_punct_view(r) == type_punct_view(*p),
    decreases *p, 0nat,
{
    match p {
        Punctuated::Empty => Punctuated::Empty,
        Punctuated::NonEmpty { first, rest, trailing } => {
            let first2 = copy_boxed_type(first);
            let mut rest2: Vec<(Token, Box<TypeNode>)> = Vec::new();
            let mut i: usize = 0;
            assert forall|k: int| 0 <= k < rest@.len() implies decreases_to!(*p => rest@[k].1) by {
                assert(decreases_to!(*p => *rest));
                assert(decreases_to!(*rest => rest@));
                assert(decreases_to!(rest@ => rest@[k]));
            }
            while i < rest.len()
                invariant
                    forall|k: int| 0 <= k < rest@.len() ==> decreases_to!(*p => rest@[k].1),
                    i <= rest@.len(),
                    rest2@.len() == i,
                    forall|k: int|
                        0 <= k < i ==> rest2@[k].0@ == rest@[k].0@ && type_node_view(*rest2@[k].1)
                            == type_node_view(*rest@[k].1),
                decreases rest@.len() - i,
            {
                let d = rest[i].0.duplicate();
                let t = copy_boxed_type(&rest[i].1);
                rest2.push((d, t));
                i = i + 1;
            }
            let r = Punctuated::NonEmpty { first: first2, rest: rest2, trailing: copy_opt_token(trailing) };
            assert(type_punct_view(r) == type_punct_view(*p)) by {
                let a = type_punct_view(r);
                let b = type_punct_view(*p);
                if let (SpecPunct::NonEmpty { rest: ra, .. }, SpecPunct::NonEmpty { rest: rb, .. }) = (a, b) {
                    assert(ra =~= rb);
                }
            }
            r
        },
    }
}

/// A copy of an identifier lookup.
fn copy_ident_lookup(n: &IdentLookupNode) -> (r: IdentLookupNode)
    ensures
        ident_lookup_view(r) == ident_lookup_view(*n),
{
    IdentLookupNode { name: n.name.duplicate(), span: n.span }
}

/// A copy of an expression node.
pub fn copy_expr_node(e: &ExprNode) -> (r: ExprNode)
    ensures
        expr_node_view(r) == expr_node_view(*e),
    decreases *e, 2nat,
{
    ExprNode { expr: copy_expr(&e.expr), span: e.span }
}

/// A boxed copy of a boxed expression node.
fn copy_boxed_expr(e: &Box<ExprNode>) -> (r: Box<ExprNode>)
    ensures
        expr_node_view(*r) == expr_node_view(**e),
    decreases **e, 3nat,
{
    Box::new(copy_expr_node(&**e))
}

/// A copy of an expression.
pub fn copy_expr(e: &Expr) -> (r: Expr)
    ensures
        expr_view(r) == expr_view(*e),
    decreases *e, 1nat,
{
    match e {
        Expr::IdentLookup(n) => Expr::IdentLookup(copy_ident_lookup(n)),
        Expr::StaticAccess(n) => Expr::StaticAccess(
            StaticAccessNode {
                lhs: copy_ident_lookup(&n.lhs),
                delim: n.delim.duplicate(),
                rhs: copy_boxed_expr(&n.rhs),
                span: n.span,
            },
        ),
        Expr::FnCall(n) => Expr::FnCall(copy_fn_call(n)),
        Expr::Literal(n) => Expr::Literal(copy_literal_node(n)),
        Expr::Ref(n) => Expr::Ref(
            RefNode {
                ref_token: n.ref_token.duplicate(),
                mut_token: copy_opt_token(&n.mut_token),
                expr: copy_boxed_expr(&n.expr),
                span: n.span,
            },
        ),
        Expr::Deref(n) => Expr::Deref(
            DerefNode {
                deref_token: n.deref_token.duplicate(),
                expr: copy_boxed_expr(&n.expr),
                span: n.span,
            },
        ),
        Expr::TemplateString(n) => {
            let mut middles: Vec<TemplateStringMiddleNode> = Vec::new();
            let mut i: usize = 0;
            assert forall|k: int| 0 <= k < n.middles@.len() implies decreases_to!(*e => *n.middles@[k].expr) by {
                assert(decreases_to!(*e => *n));
                assert(decreases_to!(*n => n.middles));
                assert(decreases_to!(n.middles => n.middles@));
                assert(decreases_to!(n.middles@ => n.middles@[k]));
                assert(decreases_to!(n.middles@[k] => n.middles@[k].expr));
            }
            while i < n.middles.len()
                invariant
                    forall|k: int| 0 <= k < n.middles@.len() ==> decreases_to!(*e => *n.middles@[k].expr),
                    i <= n.middles@.len(),
                    middles@.len() == i,
                    forall|k: int|
                        0 <= k < i ==> expr_node_view(*middles@[k].expr) == expr_node_view(
                            *n.middles@[k].expr,
                        ) && middles@[k].post_value@ == n.middles@[k].post_value@
                            && middles@[k].span == n.middles@[k].span,
                decreases n.middles@.len() - i,
            {
                let m = &n.middles[i];
                let expr = copy_boxed_expr(&m.expr);
                middles.push(TemplateStringMiddleNode { expr, post_value: m.post_value.clone(), span: m.span });
                i = i + 1;
            }
            let r = Expr::TemplateString(
                TemplateStringNode { start_value: n.start_value.clone(), middles, span: n.span },
            );
            assert(expr_view(r) == expr_view(*e)) by {
                if let (SpecExpr::TemplateString { middles: ma, .. }, SpecExpr::TemplateString { middles: mb, .. }) = (expr_view(r), expr_view(*e)) {
                    assert(ma =~= mb);
                }
            }
            r
        },
    }
}

/// A copy of a literal.
fn copy_literal_node(n: &LiteralNode) -> (r: LiteralNode)
    ensures
        literal_node_view(r) == literal_node_view(*n),
    decreases *n, 0nat,
{
    let literal = match &n.literal {
        Literal::Bool(b) => Literal::Bool(*b),
        Literal::String(s) => Literal::String(s.clone()),
        Literal::SomeOption { token, open_paren, expr, close_paren } => Literal::SomeOption {
            token: token.duplicate(),
            open_paren: open_paren.duplicate(),
            expr: copy_boxed_expr(expr),
            close_paren: close_paren.duplicate(),
        },
        Literal::NoneOption(t) => Literal::NoneOption(t.duplicate()),
    };
    LiteralNode { literal, span: n.span }
}

/// A copy of an argument of a call.
fn copy_arg(a: &FnCallArgNode) -> (r: FnCallArgNode)
    ensures
        fn_call_arg_view(r) == fn_call_arg_view(*a),
    decreases *a, 0nat,
{
    let name = match &a.name {
        Some((n, eq)) => Some((n.duplicate(), eq.duplicate())),
        None => None,
    };
    FnCallArgNode { name, expr: copy_boxed_expr(&a.expr), span: a.span }
}

/// A copy of a call.
fn copy_fn_call(n: &FnCallNode) -> (r: FnCallNode)
    ensures
        fn_call_view(r) == fn_call_view(*n),
    decreases *n, 0nat,
{
    let args = match &n.args {
        Punctuated::Empty => Punctuated::Empty,
        Punctuated::NonEmpty { first, rest, trailing } => {
            let first2 = copy_arg(first);
            let mut rest2: Vec<(Token, FnCallArgNode)> = Vec::new();
            let mut i: usize = 0;
            assert forall|k: int| 0 <= k < rest@.len() implies decreases_to!(*n => rest@[k].1) by {
                assert(decreases_to!(*n => n.args));
                assert(decreases_to!(n.args => *rest));
                assert(decreases_to!(*rest => rest@));
                assert(decreases_to!(rest@ => rest@[k]));
            }
            while i < rest.len()
                invariant
                    forall|k: int| 0 <= k < rest@.len() ==> decreases_to!(*n => rest@[k].1),
                    i <= rest@.len(),
                    rest2@.len() == i,
                    forall|k: int|
                        0 <= k < i ==> rest2@[k].0@ == rest@[k].0@ && fn_call_arg_view(rest2@[k].1)
                            == fn_call_arg_view(rest@[k].1),
                decreases rest@.len() - i,
            {
                let d = rest[i].0.duplicate();
                let a = copy_arg(&rest[i].1);
                rest2.push((d, a));
                i = i + 1;
            }
            let r = Punctuated::NonEmpty { first: first2, rest: rest2, trailing: copy_opt_token(trailing) };
            assert(arg_punct_view(r) == arg_punct_view(n.args)) by {
                if let (SpecPunct::NonEmpty { rest: ra, .. }, SpecPunct::NonEmpty { rest: rb, .. }) = (arg_punct_view(r), arg_punct_view(n.args)) {
                    assert(ra =~= rb);
                }
            }
            r
        },
    };
    FnCallNode {
        name: n.name.duplicate(),
        open_paren: n.open_paren.duplicate(),
        close_paren: n.close_paren.duplicate(),
        args,
        span: n.span,
    }
}

/// A copy of a parameter of a function.
pub fn copy_param(p: &FnDefParamNode) -> (r: FnDefParamNode)
    ensures
        param_view(r) == param_view(*p),
{
    let default_value = match &p.default_value {
        Some((eq, e)) => Some((eq.duplicate(), copy_expr_node(e))),
        None => None,
    };
    assert(opt_expr_view(default_value) == opt_expr_view(p.default_value));
    FnDefParamNode {
        name: p.name.duplicate(),
        colon: p.colon.duplicate(),
        param_type: copy_type_node(&p.param_type),
        default_value,
        span: p.span,
    }
}

/// Copies of the parameters of a function, in order.
pub fn param_values(p: &Punctuated<FnDefParamNode, Token>) -> (r: Vec<FnDefParamNode>)
    ensures
        r@.map_values(|q: FnDefParamNode| param_view(q)) == param_punct_view(*p).values(),
{
    match p {
        Punctuated::Empty => {
            let r: Vec<FnDefParamNode> = Vec::new();
            assert(r@.map_values(|q: FnDefParamNode| param_view(q)) =~= param_punct_view(*p).values());
            r
        },
        Punctuated::NonEmpty { first, rest, .. } => {
            let mut r: Vec<FnDefParamNode> = Vec::new();
            r.push(copy_param(first));
            let mut i: usize = 0;
            while i < rest.len()
                invariant
                    i <= rest@.len(),
                    r@.len() == i + 1,
                    param_view(r@[0]) == param_view(*first),
                    forall|k: int| 0 <= k < i ==> param_view(r@[k + 1]) == param_view(rest@[k].1),
                decreases rest@.len() - i,
            {
                r.push(copy_param(&rest[i].1));
                i = i + 1;
            }
            assert(r@.map_values(|q: FnDefParamNode| param_view(q)) =~= param_punct_view(*p).values());
            r
        },
    }
}

} // verus!

//! What the generated Rust text says, for every syntax tree.
use vstd::prelude::*;

use crate::generator::rust_ast::{Assign, AssignType, Decl, DeclPattern, Statement};
use crate::generator::spec::{rs_expr, rs_partial, rs_type};

verus! {

/// The name a declaration binds.
pub open spec fn decl_name(d: Decl) -> Seq<char> {
    match d.decl_pattern {
        DeclPattern::Id(id) => id@,
    }
}

/// A declaration becomes a Rust `let`: a constant one binds its name
/// immutably (`let name`), any other one mutably (`let mut name`); without
/// a type, that is all of it, and a type follows it after `: `.
pub proof fn lemma_decl_binds_as_declared(d: Decl)
    ensures
        d.is_const ==> rs_partial(Statement::Decl(d)).take(4 + decl_name(d).len() as int) == "let "@ + decl_name(d),
        !d.is_const ==> rs_partial(Statement::Decl(d)).take(8 + decl_name(d).len() as int) == "let mut "@
            + decl_name(d),
        d.is_const && d.explicit_type is None ==> rs_partial(Statement::Decl(d)) == "let "@ + decl_name(d),
        !d.is_const && d.explicit_type is None ==> rs_partial(Statement::Decl(d)) == "let mut "@ + decl_name(d),
        d.explicit_type matches Some(t) ==> rs_partial(Statement::Decl(d)) == rs_partial(
            Statement::Decl(Decl { explicit_type: None, ..d }),
        ) + ": "@ + rs_type(t),
{
    reveal_strlit("let ");
    reveal_strlit("let mut ");
    let r = rs_partial(Statement::Decl(d));
    let n = decl_name(d);
    if d.is_const {
        assert(r.take(4 + n.len() as int) =~= "let "@ + n);
    } else {
        assert(r.take(8 + n.len() as int) =~= "let mut "@ + n);
    }
}

/// An assignment is its left side, ` = `, and its right side; an
/// expression statement is the expression.
pub proof fn lemma_assign_and_expr_text(a: Assign, s: Statement)
    ensures
        a.assign_type == AssignType::Eq ==> rs_partial(Statement::Assign(a)) == rs_partial(*a.lhs) + " = "@ + rs_expr(
            a.rhs,
        ),
        s matches Statement::Expr(e) ==> rs_partial(s) == rs_expr(e),
{
}

} // verus!

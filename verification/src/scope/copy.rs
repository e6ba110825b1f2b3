//! Copies of scopes that keep their views: a `use` of a module puts a copy
//! of the module's exported scope into the scope that uses it.
use vstd::prelude::*;

use crate::parser::ast::{FnDefParamNode, Type};
use crate::parser::copy::{copy_param, copy_type};
use crate::parser::view::{
    opt_spec_type, param_view, scope_ref_node_view, scope_ref_view, scope_table_view,
};
use crate::scope::{ScopeRef, ScopeRefNode, ScopeTable};

verus! {

/// A copy of an optional type.
pub fn copy_opt_type(t: &Option<Type>) -> (r: Option<Type>)
    ensures
        opt_spec_type(r) == opt_spec_type(*t),
{
    match t {
        Some(t) => Some(copy_type(t)),
        None => None,
    }
}

/// A copy of a scope.
pub fn copy_scope_table(t: &ScopeTable) -> (r: ScopeTable)
    ensures
        scope_table_view(r) == scope_table_view(*t),
    decreases *t, 0nat,
{
    let mut entries: Vec<(String, ScopeRefNode)> = Vec::new();
    let mut i: usize = 0;
    assert forall|k: int| 0 <= k < t.entries@.len() implies decreases_to!(*t => t.entries@[k].1) by {
        assert(decreases_to!(*t => t.entries));
        assert(decreases_to!(t.entries => t.entries@));
        assert(decreases_to!(t.entries@ => t.entries@[k]));
    }
    while i < t.entries.len()
        invariant
            forall|k: int| 0 <= k < t.entries@.len() ==> decreases_to!(*t => t.entries@[k].1),
            i <= t.entries@.len(),
            entries@.len() == i,
            forall|k: int|
                0 <= k < i ==> entries@[k].0@ == t.entries@[k].0@ && scope_ref_node_view(entries@[k].1)
                    == scope_ref_node_view(t.entries@[k].1),
        decreases t.entries@.len() - i,
    {
        let name = t.entries[i].0.clone();
        let node = copy_scope_ref_node(&t.entries[i].1);
        entries.push((name, node));
        i = i + 1;
    }
    let r = ScopeTable { entries };
    assert(scope_table_view(r) =~= scope_table_view(*t));
    r
}

/// A copy of a scope entry.
pub fn copy_scope_ref_node(n: &ScopeRefNode) -> (r: ScopeRefNode)
    ensures
        scope_ref_node_view(r) == scope_ref_node_view(*n),
    decreases *n, 2nat,
{
    ScopeRefNode { name: n.name.clone(), is_public: n.is_public, scope_ref: copy_scope_ref(&n.scope_ref) }
}

/// A copy of what a scope entry refers to.
pub fn copy_scope_ref(r: &ScopeRef) -> (c: ScopeRef)
    ensures
        scope_ref_view(c) == scope_ref_view(*r),
    decreases *r, 1nat,
{
    match r {
        ScopeRef::Mod(t) => ScopeRef::Mod(copy_scope_table(t)),
        ScopeRef::Fn { name, params, return_type } => {
            let mut ps: Vec<FnDefParamNode> = Vec::new();
            let mut i: usize = 0;
            while i < params.len()
                invariant
                    i <= params@.len(),
                    ps@.len() == i,
                    forall|k: int| 0 <= k < i ==> param_view(ps@[k]) == param_view(params@[k]),
                decreases params@.len() - i,
            {
                ps.push(copy_param(&params[i]));
                i = i + 1;
            }
            assert(ps@.map_values(|p: FnDefParamNode| param_view(p)) =~= params@.map_values(
                |p: FnDefParamNode| param_view(p),
            ));
            ScopeRef::Fn { name: name.clone(), params: ps, return_type: copy_opt_type(return_type) }
        },
        ScopeRef::LocalVar { is_const, name, known_type } => ScopeRef::LocalVar {
            is_const: *is_const,
            name: name.clone(),
            known_type: copy_opt_type(known_type),
        },
    }
}

} // verus!

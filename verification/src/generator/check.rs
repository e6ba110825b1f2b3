//! Whether the generator can turn a Rust syntax tree into text: only the
//! type `FeStr` has a text, and the left side of an assignment cannot be
//! an item. Callers test this before they generate.
use vstd::prelude::*;

use crate::generator::project::{node_ok, node_ok_at, project_ok};
use crate::generator::rust_ast::{FnDef, Item, RustModNode, RustModNodeFile, RustProject, Statement, Type};
use crate::generator::spec::{fn_ok, item_ok, items_ok, lemma_stmts_ok, partial_ok, stmt_ok, stmts_ok, type_ok};

verus! {

/// Whether a type has a text.
fn check_type(t: &Type) -> (b: bool)
    ensures
        b == type_ok(*t),
{
    match t {
        Type::FeStr => true,
        _ => false,
    }
}

/// Whether a statement without its `;` can be generated.
fn check_partial(s: &Statement) -> (b: bool)
    ensures
        b == partial_ok(*s),
    decreases *s,
{
    match s {
        Statement::Item(_) => false,
        Statement::Expr(_) => true,
        Statement::Decl(d) => match &d.explicit_type {
            Some(t) => check_type(t),
            None => true,
        },
        Statement::Assign(a) => check_partial(&a.lhs),
    }
}

/// Whether a statement can be generated at indentation `n`.
fn check_stmt(n: usize, s: &Statement) -> (b: bool)
    ensures
        b == stmt_ok(n as nat, *s),
    decreases *s,
{
    match s {
        Statement::Item(i) => check_item(n, i),
        _ => check_partial(s),
    }
}

/// Whether an item can be generated at indentation `n`.
fn check_item(n: usize, i: &Item) -> (b: bool)
    ensures
        b == item_ok(n as nat, *i),
    decreases *i,
{
    match i {
        Item::FnDef(f) => check_fn(n, f),
        _ => true,
    }
}

/// Whether a function can be generated at indentation `n`.
fn check_fn(n: usize, f: &FnDef) -> (b: bool)
    ensures
        b == fn_ok(n as nat, *f),
    decreases *f,
{
    if n == usize::MAX {
        return false;
    }
    let mut k: usize = 0;
    while k < f.params.len()
        invariant
            k <= f.params@.len(),
            forall|j: int| 0 <= j < k ==> type_ok(#[trigger] f.params@[j].param_type),
        decreases f.params@.len() - k,
    {
        if !check_type(&f.params[k].param_type) {
            return false;
        }
        k = k + 1;
    }
    match &f.return_type {
        Some(t) => {
            if !check_type(t) {
                return false;
            }
        },
        None => {},
    }
    proof {
        lemma_stmts_ok((n + 1) as nat, f.body@);
    }
    assert forall|j: int| 0 <= j < f.body@.len() implies decreases_to!(*f => f.body@[j]) by {
        assert(decreases_to!(*f => f.body));
        assert(decreases_to!(f.body => f.body@));
    }
    let mut k: usize = 0;
    while k < f.body.len()
        invariant
            forall|j: int| 0 <= j < f.body@.len() ==> decreases_to!(*f => f.body@[j]),
            stmts_ok((n + 1) as nat, f.body@) <==> forall|j: int| 0 <= j < f.body@.len() ==> stmt_ok((n + 1) as nat, #[trigger] f.body@[j]),
            n < usize::MAX,
            k <= f.body@.len(),
            forall|j: int| 0 <= j < k ==> stmt_ok((n + 1) as nat, #[trigger] f.body@[j]),
        decreases f.body@.len() - k,
    {
        if !check_stmt(n + 1, &f.body[k]) {
            return false;
        }
        k = k + 1;
    }
    true
}

/// Whether the items of a file can be generated at indentation 0.
fn check_items(items: &Vec<Item>) -> (b: bool)
    ensures
        b == items_ok(0, items@),
{
    let mut k: usize = 0;
    while k < items.len()
        invariant
            k <= items@.len(),
            forall|j: int| 0 <= j < k ==> item_ok(0, #[trigger] items@[j]),
        decreases items@.len() - k,
    {
        if !check_item(0, &items[k]) {
            return false;
        }
        k = k + 1;
    }
    true
}

/// Whether every file of a module can be generated.
fn check_node(m: &RustModNode) -> (b: bool)
    ensures
        b == node_ok(*m),
    decreases *m,
{
    match &m.file {
        RustModNodeFile::File(f) => check_items(&f.items),
        RustModNodeFile::Dir(nodes) => {
            assert forall|j: int| 0 <= j < nodes@.len() implies decreases_to!(*m => nodes@[j].1) by {
                assert(decreases_to!(*m => m.file));
                assert(decreases_to!(m.file => *nodes));
                assert(decreases_to!(*nodes => nodes@));
                assert(decreases_to!(nodes@ => nodes@[j]));
            }
            let mut k: usize = 0;
            while k < nodes.len()
                invariant
                    forall|j: int| 0 <= j < nodes@.len() ==> decreases_to!(*m => nodes@[j].1),
                    m.file == RustModNodeFile::Dir(*nodes),
                    k <= nodes@.len(),
                    forall|j: int| 0 <= j < k ==> node_ok_at(nodes@, j) && node_ok(#[trigger] nodes@[j].1),
                decreases nodes@.len() - k,
            {
                if !check_node(&nodes[k].1) {
                    assert(node_ok_at(nodes@, k as int));
                    assert(!node_ok(nodes@[k as int].1));
                    assert(!(node_ok_at(nodes@, k as int) && node_ok(nodes@[k as int].1)));
                    assert(m.file is Dir);
                    assert(m.file->Dir_0 == *nodes);
                    assert(!node_ok(*m));
                    return false;
                }
                k = k + 1;
            }
            assert forall|j: int| 0 <= j < nodes@.len() implies #[trigger] node_ok_at(nodes@, j) && node_ok(nodes@[j].1) by {}
            true
        },
    }
}

/// Whether the generator can turn the whole project into text (see
/// `project_ok`).
pub fn project_is_supported(p: &RustProject) -> (b: bool)
    ensures
        b == project_ok(*p),
{
    if !check_items(&p.main_file.items) {
        return false;
    }
    let mut k: usize = 0;
    while k < p.siblings.len()
        invariant
            k <= p.siblings@.len(),
            forall|j: int| 0 <= j < k ==> node_ok(#[trigger] p.siblings@[j].1),
        decreases p.siblings@.len() - k,
    {
        if !check_node(&p.siblings[k].1) {
            return false;
        }
        k = k + 1;
    }
    true
}

} // verus!

//! Scopes: what names a file, module or function makes visible, and how
//! `use` patterns bring names from one scope into another.
pub mod copy;
pub mod fill;
pub mod fill_spec;
pub mod laws;
pub mod resolve;
pub mod spec;

use vstd::prelude::*;

use crate::parser::ast::{FnDefParamNode, Type};
use crate::parser::view::{scope_ref_node_view, scope_table_view};
use crate::scope::spec::{
    index_of_name, lemma_index_is_first, lemma_index_of_name, lemma_insert_distinct, names_distinct, scope_insert,
    scope_lookup,
};

verus! {

/// The names visible in a scope, each with what it refers to. No name
/// occurs twice: `new` gives a table whose names are distinct
/// (`names_distinct`), and `insert` keeps them so.
#[derive(Debug)]
pub struct ScopeTable {
    pub entries: Vec<(String, ScopeRefNode)>,
}

/// What a name in a scope refers to, and whether it is exported.
#[derive(Debug)]
pub struct ScopeRefNode {
    pub name: String,
    pub is_public: bool,
    pub scope_ref: ScopeRef,
}

#[derive(Debug)]
pub enum ScopeRef {
    /// A module, with the scope it exports.
    Mod(ScopeTable),
    Fn { name: String, params: Vec<FnDefParamNode>, return_type: Option<Type> },
    LocalVar { is_const: bool, name: String, known_type: Option<Type> },
}

impl ScopeTable {
    /// An empty scope.
    pub fn new() -> (t: ScopeTable)
        ensures
            t.entries@.len() == 0,
            scope_table_view(t) == Seq::<(Seq<char>, crate::parser::view::SpecScopeRefNode)>::empty(),
            names_distinct(scope_table_view(t)),
    {
        let t = ScopeTable { entries: Vec::new() };
        assert(scope_table_view(t) =~= Seq::empty());
        t
    }

    /// Whether the scope names nothing.
    pub fn is_empty(&self) -> (b: bool)
        ensures
            b == (scope_table_view(*self).len() == 0),
    {
        self.entries.len() == 0
    }

    /// The position of the entry named `name`, if any.
    pub fn find(&self, name: &String) -> (r: Option<usize>)
        ensures
            match r {
                Some(i) => i < self.entries@.len() && index_of_name(scope_table_view(*self), name@) == i,
                None => index_of_name(scope_table_view(*self), name@) == -1,
            },
    {
        let ghost s = scope_table_view(*self);
        let mut i: usize = 0;
        while i < self.entries.len()
            invariant
                i <= self.entries@.len(),
                s == scope_table_view(*self),
                forall|j: int| 0 <= j < i ==> s[j].0 != name@,
            decreases self.entries@.len() - i,
        {
            if self.entries[i].0 == *name {
                proof {
                    lemma_index_is_first(s, name@, i as int);
                }
                return Some(i);
            }
            i = i + 1;
        }
        proof {
            lemma_index_of_name(s, name@);
        }
        None
    }

    /// What `name` refers to in the scope, if anything.
    pub fn get(&self, name: &String) -> (r: Option<&ScopeRefNode>)
        ensures
            match r {
                Some(n) => scope_lookup(scope_table_view(*self), name@) == Some(scope_ref_node_view(*n)),
                None => scope_lookup(scope_table_view(*self), name@) is None,
            },
    {
        match self.find(name) {
            Some(i) => Some(&self.entries[i].1),
            None => None,
        }
    }

    /// Makes `name` refer to `node`, replacing what it referred to before.
    pub fn insert(&mut self, name: String, node: ScopeRefNode)
        ensures
            scope_table_view(*final(self)) == scope_insert(
                scope_table_view(*old(self)),
                name@,
                scope_ref_node_view(node),
            ),
            names_distinct(scope_table_view(*old(self))) ==> names_distinct(scope_table_view(*final(self))),
    {
        let ghost s = scope_table_view(*self);
        let ghost k = name@;
        let ghost v = scope_ref_node_view(node);
        match self.find(&name) {
            Some(i) => {
                self.entries.set(i, (name, node));
                assert(scope_table_view(*self) =~= s.update(i as int, (k, v)));
            },
            None => {
                self.entries.push((name, node));
                assert(scope_table_view(*self) =~= s.push((k, v)));
            },
        }
        proof {
            if names_distinct(s) {
                lemma_insert_distinct(s, k, v);
            }
        }
    }
}

} // verus!

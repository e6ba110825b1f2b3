//! Scopes as mathematical values: a scope is a sequence of (name, entry)
//! pairs in which no name occurs twice.
use vstd::prelude::*;

use crate::parser::view::{SpecScopeRef, SpecScopeRefNode};

verus! {

/// A scope as a sequence of named entries.
pub type SpecScope = Seq<(Seq<char>, SpecScopeRefNode)>;

/// The position of the first entry named `k`, or -1 when there is none.
pub open spec fn index_of_name(s: SpecScope, k: Seq<char>) -> int
    decreases s.len(),
{
    if s.len() == 0 {
        -1
    } else if s[0].0 == k {
        0
    } else {
        let r = index_of_name(s.drop_first(), k);
        if r < 0 {
            -1
        } else {
            r + 1
        }
    }
}

/// No name occurs twice.
pub open spec fn names_distinct(s: SpecScope) -> bool {
    forall|i: int, j: int| 0 <= i < j < s.len() ==> s[i].0 != s[j].0
}

/// What `k` names in the scope.
pub open spec fn scope_lookup(s: SpecScope, k: Seq<char>) -> Option<SpecScopeRefNode> {
    let i = index_of_name(s, k);
    if i >= 0 {
        Some(s[i].1)
    } else {
        None
    }
}

/// The scope with `k` naming `v`: the entry of that name replaced in place,
/// or a new entry at the end.
pub open spec fn scope_insert(s: SpecScope, k: Seq<char>, v: SpecScopeRefNode) -> SpecScope {
    let i = index_of_name(s, k);
    if i >= 0 {
        s.update(i, (k, v))
    } else {
        s.push((k, v))
    }
}

/// Whether an entry is exported.
pub open spec fn entry_is_public(e: (Seq<char>, SpecScopeRefNode)) -> bool {
    e.1.is_public
}

/// What a reference exposes to a user of it: of a module, only its public
/// entries; anything else as it is.
pub open spec fn public_only(r: SpecScopeRef) -> SpecScopeRef {
    match r {
        SpecScopeRef::Mod(s) => SpecScopeRef::Mod(s.filter(|e: (Seq<char>, SpecScopeRefNode)| entry_is_public(e))),
        _ => r,
    }
}

/// `index_of_name` finds the first entry of the name, and -1 means there
/// is none.
pub proof fn lemma_index_of_name(s: SpecScope, k: Seq<char>)
    ensures
        -1 <= index_of_name(s, k) < s.len(),
        index_of_name(s, k) == -1 <==> forall|j: int| 0 <= j < s.len() ==> s[j].0 != k,
        index_of_name(s, k) >= 0 ==> s[index_of_name(s, k)].0 == k,
        forall|j: int| 0 <= j < index_of_name(s, k) ==> s[j].0 != k,
    decreases s.len(),
{
    if s.len() > 0 && s[0].0 != k {
        lemma_index_of_name(s.drop_first(), k);
        assert forall|j: int| 1 <= j < s.len() implies s[j].0 == s.drop_first()[j - 1].0 by {}
        if index_of_name(s, k) == -1 {
            assert forall|j: int| 0 <= j < s.len() implies s[j].0 != k by {
                if j > 0 {
                    assert(s[j].0 == s.drop_first()[j - 1].0);
                }
            }
        }
    }
}

/// In a scope whose names are distinct, the entry at `i` is the one its
/// name finds.
pub proof fn lemma_index_of_distinct(s: SpecScope, i: int)
    requires
        names_distinct(s),
        0 <= i < s.len(),
    ensures
        index_of_name(s, s[i].0) == i,
{
    lemma_index_of_name(s, s[i].0);
}

/// Inserting keeps the names distinct.
pub proof fn lemma_insert_distinct(s: SpecScope, k: Seq<char>, v: SpecScopeRefNode)
    requires
        names_distinct(s),
    ensures
        names_distinct(scope_insert(s, k, v)),
{
    lemma_index_of_name(s, k);
}

/// The first entry of a name is the one `index_of_name` finds.
pub proof fn lemma_index_is_first(s: SpecScope, k: Seq<char>, r: int)
    requires
        0 <= r < s.len(),
        s[r].0 == k,
        forall|j: int| 0 <= j < r ==> s[j].0 != k,
    ensures
        index_of_name(s, k) == r,
{
    lemma_index_of_name(s, k);
}

/// Law of the scope as a map: after `k` is made to name `v`, looking `k`
/// up gives `v`.
pub proof fn lemma_lookup_insert_same(s: SpecScope, k: Seq<char>, v: SpecScopeRefNode)
    ensures
        scope_lookup(scope_insert(s, k, v), k) == Some(v),
{
    lemma_index_of_name(s, k);
    let i = index_of_name(s, k);
    let t = scope_insert(s, k, v);
    if i >= 0 {
        lemma_index_is_first(t, k, i);
    } else {
        lemma_index_is_first(t, k, s.len() as int);
    }
}

/// Law of the scope as a map: making `k` name `v` leaves what every other
/// name looks up unchanged.
pub proof fn lemma_lookup_insert_other(s: SpecScope, k: Seq<char>, v: SpecScopeRefNode, k2: Seq<char>)
    requires
        k2 != k,
    ensures
        scope_lookup(scope_insert(s, k, v), k2) == scope_lookup(s, k2),
{
    lemma_index_of_name(s, k);
    lemma_index_of_name(s, k2);
    let t = scope_insert(s, k, v);
    lemma_index_of_name(t, k2);
    let i2 = index_of_name(s, k2);
    if i2 >= 0 {
        lemma_index_is_first(t, k2, i2);
    } else {
        assert forall|j: int| 0 <= j < t.len() implies t[j].0 != k2 by {
            if j < s.len() {
                assert(t[j].0 == s[j].0 || t[j].0 == k);
            }
        }
    }
}

} // verus!

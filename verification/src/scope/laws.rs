//! What holds of scopes and of `use` resolution for every input.
use vstd::prelude::*;

use crate::lexer::token::TokenView;
use crate::parser::view::{
    SpecDestructUsePattern, SpecDestructUsePatternNode, SpecInitUsePattern, SpecItem, SpecItemNode, SpecPunct,
    SpecScopeRef, SpecScopeRefNode, SpecUseNode, SpecUsePattern, SpecUsePatternNode, SpecUsePatternPath,
};
use crate::scope::fill_spec::{
    apply_use_spec, dependency_of, drop_selves_from, fill_item_spec, fill_items_spec, fn_entry, mod_entry,
    self_mods_from, FillCtx, UsedApis,
};
use crate::scope::resolve::{
    destruct_from_spec, is_self_pattern, resolve_destruct_node_spec, resolve_id_spec, resolve_path_spec,
    resolve_pattern_spec, self_inserts_spec, used_entry, wild_spec, SpecScopeError,
};
use crate::scope::spec::{
    entry_is_public, lemma_insert_distinct, lemma_lookup_insert_other, lemma_lookup_insert_same, names_distinct,
    public_only, scope_insert, scope_lookup, SpecScope,
};

verus! {

/// Filtering a sequence twice by the same test is filtering it once.
proof fn lemma_filter_twice(s: SpecScope)
    ensures
        s.filter(|e: (Seq<char>, SpecScopeRefNode)| entry_is_public(e)).filter(
            |e: (Seq<char>, SpecScopeRefNode)| entry_is_public(e),
        ) == s.filter(|e: (Seq<char>, SpecScopeRefNode)| entry_is_public(e)),
    decreases s.len(),
{
    reveal(Seq::filter);
    let p = |e: (Seq<char>, SpecScopeRefNode)| entry_is_public(e);
    if s.len() > 0 {
        lemma_filter_twice(s.drop_last());
        let f = s.drop_last().filter(p);
        if p(s.last()) {
            assert(f.push(s.last()).drop_last() =~= f);
        }
    }
}

/// A module seen from outside shows only its public entries; seeing it
/// from outside again changes nothing.
pub proof fn lemma_public_only_idempotent(r: SpecScopeRef)
    ensures
        public_only(public_only(r)) == public_only(r),
{
    match r {
        SpecScopeRef::Mod(s) => lemma_filter_twice(s),
        _ => {},
    }
}

/// Every entry of a module seen from outside is public.
pub proof fn lemma_public_only_entries_public(s: SpecScope)
    ensures
        public_only(SpecScopeRef::Mod(s)) matches SpecScopeRef::Mod(t) && forall|i: int|
            0 <= i < t.len() ==> (#[trigger] t[i]).1.is_public,
{
    broadcast use vstd::seq_lib::group_filter_ensures;

    let t = s.filter(|e: (Seq<char>, SpecScopeRefNode)| entry_is_public(e));
    assert forall|i: int| 0 <= i < t.len() implies (#[trigger] t[i]).1.is_public by {
        assert(entry_is_public(t[i]));
    }
}

/// `use m::x`: once resolved, `x` names in the destination what it names
/// in `m`, as seen from outside, exported as the `use` is (not as `m`
/// exports it); every other name looks up in the destination as before.
pub proof fn lemma_resolve_id_finds(d: SpecScope, s: SpecScope, t: TokenView, is_public: bool)
    requires
        resolve_id_spec(d, s, t, is_public).1 is None,
    ensures
        scope_lookup(s, t.literal) is Some,
        scope_lookup(resolve_id_spec(d, s, t, is_public).0, t.literal) == Some(
            used_entry(t.literal, scope_lookup(s, t.literal)->0, is_public),
        ),
        forall|k: Seq<char>|
            k != t.literal ==> #[trigger] scope_lookup(resolve_id_spec(d, s, t, is_public).0, k) == scope_lookup(
                d,
                k,
            ),
{
    let n = scope_lookup(s, t.literal)->0;
    let v = used_entry(t.literal, n, is_public);
    lemma_lookup_insert_same(d, t.literal, v);
    assert forall|k: Seq<char>| k != t.literal implies #[trigger] scope_lookup(
        resolve_id_spec(d, s, t, is_public).0,
        k,
    ) == scope_lookup(d, k) by {
        lemma_lookup_insert_other(d, t.literal, v, k);
    }
}

/// The name a `use` of one name, or of a path, looks up first in the
/// source scope; `None` for other patterns.
pub open spec fn head_name(p: SpecUsePatternNode) -> Option<TokenView> {
    match p.use_pattern {
        SpecUsePattern::Id(t) => Some(t),
        SpecUsePattern::Path(path) => Some(path.parent_name),
        _ => None,
    }
}

/// A `use` of a name, or of a path through a name, that the source scope
/// lacks is refused as an invalid pattern, and one that the source scope
/// does not export is refused with the entry it names there; either way the
/// destination is left as it was.
pub proof fn lemma_refused_use_leaves_dest(d: SpecScope, s: SpecScope, p: SpecUsePatternNode, is_public: bool)
    requires
        head_name(p) is Some,
        !(scope_lookup(s, (head_name(p)->0).literal) matches Some(n) && n.is_public),
    ensures
        resolve_pattern_spec(d, s, p, is_public).0 == d,
        scope_lookup(s, (head_name(p)->0).literal) is None ==> resolve_pattern_spec(d, s, p, is_public).1
            == Some(SpecScopeError::InvalidUsePattern(head_name(p)->0)),
        scope_lookup(s, (head_name(p)->0).literal) matches Some(n) ==> resolve_pattern_spec(d, s, p, is_public).1
            == Some(SpecScopeError::CannotUsePrivate(head_name(p)->0, n)),
{
}

/// `use m::*` leaves alone every name that is no public name of `m`: it
/// looks up in the destination as before. Private entries of `m` are
/// never brought.
pub proof fn lemma_wild_keeps_others(d: SpecScope, s: SpecScope, is_public: bool, k: Seq<char>)
    requires
        forall|i: int| 0 <= i < s.len() && s[i].0 == k ==> !s[i].1.is_public,
    ensures
        scope_lookup(wild_spec(d, s, is_public), k) == scope_lookup(d, k),
    decreases s.len(),
{
    if s.len() > 0 {
        let d1 = if s[0].1.is_public {
            scope_insert(d, s[0].0, used_entry(s[0].0, s[0].1, is_public))
        } else {
            d
        };
        if s[0].1.is_public {
            lemma_lookup_insert_other(d, s[0].0, used_entry(s[0].0, s[0].1, is_public), k);
        }
        assert forall|i: int| 0 <= i < s.drop_first().len() && s.drop_first()[i].0 == k implies !s.drop_first()[i].1.is_public by {
            assert(s.drop_first()[i] == s[i + 1]);
        }
        lemma_wild_keeps_others(d1, s.drop_first(), is_public, k);
    }
}

/// `use m::*` brings every public name of `m` (whose names are distinct):
/// each names in the destination what it names in `m`, as seen from
/// outside, exported as the `use` is.
pub proof fn lemma_wild_brings_public(d: SpecScope, s: SpecScope, is_public: bool, i: int)
    requires
        names_distinct(s),
        0 <= i < s.len(),
        s[i].1.is_public,
    ensures
        scope_lookup(wild_spec(d, s, is_public), s[i].0) == Some(used_entry(s[i].0, s[i].1, is_public)),
    decreases s.len(),
{
    let d1 = if s[0].1.is_public {
        scope_insert(d, s[0].0, used_entry(s[0].0, s[0].1, is_public))
    } else {
        d
    };
    let rest = s.drop_first();
    if i == 0 {
        lemma_lookup_insert_same(d, s[0].0, used_entry(s[0].0, s[0].1, is_public));
        assert forall|j: int| 0 <= j < rest.len() implies rest[j].0 != s[0].0 by {
            assert(rest[j] == s[j + 1]);
        }
        lemma_wild_keeps_others(d1, rest, is_public, s[0].0);
    } else {
        assert(rest[i - 1] == s[i]);
        assert(names_distinct(rest)) by {
            assert forall|a: int, b: int| 0 <= a < b < rest.len() implies rest[a].0 != rest[b].0 by {
                assert(rest[a] == s[a + 1] && rest[b] == s[b + 1]);
            }
        }
        lemma_wild_brings_public(d1, rest, is_public, i - 1);
    }
}

/// Bringing every public entry of `s` keeps the destination's names
/// distinct.
proof fn lemma_wild_distinct(d: SpecScope, s: SpecScope, is_public: bool)
    requires
        names_distinct(d),
    ensures
        names_distinct(wild_spec(d, s, is_public)),
    decreases s.len(),
{
    if s.len() > 0 {
        let d1 = if s[0].1.is_public {
            lemma_insert_distinct(d, s[0].0, used_entry(s[0].0, s[0].1, is_public));
            scope_insert(d, s[0].0, used_entry(s[0].0, s[0].1, is_public))
        } else {
            d
        };
        lemma_wild_distinct(d1, s.drop_first(), is_public);
    }
}

/// Bringing a module's own name for each `self` keeps the names distinct.
proof fn lemma_self_inserts_distinct(
    d: SpecScope,
    ps: SpecPunct<SpecDestructUsePatternNode>,
    i: nat,
    k: Seq<char>,
    r: SpecScopeRefNode,
    is_public: bool,
)
    requires
        names_distinct(d),
    ensures
        names_distinct(self_inserts_spec(d, ps, i, k, r, is_public)),
    decreases (ps.values().len() - i) as nat,
{
    if i < ps.values().len() {
        let d1 = if is_self_pattern(ps.values()[i as int]) {
            lemma_insert_distinct(d, k, used_entry(k, r, is_public));
            scope_insert(d, k, used_entry(k, r, is_public))
        } else {
            d
        };
        lemma_self_inserts_distinct(d1, ps, i + 1, k, r, is_public);
    }
}

/// Resolving a `use` pattern keeps the destination's names distinct: a
/// scope filled in by `use` items names nothing twice.
pub proof fn lemma_resolve_distinct(d: SpecScope, s: SpecScope, p: SpecUsePatternNode, is_public: bool)
    requires
        names_distinct(d),
    ensures
        names_distinct(resolve_pattern_spec(d, s, p, is_public).0),
    decreases p, 0nat,
{
    match p.use_pattern {
        SpecUsePattern::Id(t) => lemma_id_distinct(d, s, t, is_public),
        SpecUsePattern::Wild(_) => lemma_wild_distinct(d, s, is_public),
        SpecUsePattern::Path(path) => lemma_path_distinct(d, s, path, is_public),
        SpecUsePattern::Destruct { patterns, .. } => lemma_destruct_from_distinct(d, s, patterns, 0, is_public, false),
    }
}

/// See `lemma_resolve_distinct`.
proof fn lemma_id_distinct(d: SpecScope, s: SpecScope, t: TokenView, is_public: bool)
    requires
        names_distinct(d),
    ensures
        names_distinct(resolve_id_spec(d, s, t, is_public).0),
{
    match scope_lookup(s, t.literal) {
        Some(n) => if n.is_public {
            lemma_insert_distinct(d, t.literal, used_entry(t.literal, n, is_public));
        },
        None => {},
    }
}

/// See `lemma_resolve_distinct`.
proof fn lemma_destruct_node_distinct(d: SpecScope, s: SpecScope, n: SpecDestructUsePatternNode, is_public: bool)
    requires
        names_distinct(d),
    ensures
        names_distinct(resolve_destruct_node_spec(d, s, n, is_public).0),
    decreases n, 0nat,
{
    match n.use_pattern {
        SpecDestructUsePattern::Id(t) => lemma_id_distinct(d, s, t, is_public),
        SpecDestructUsePattern::Self_(t) => lemma_id_distinct(d, s, t, is_public),
        SpecDestructUsePattern::Wild(_) => lemma_wild_distinct(d, s, is_public),
        SpecDestructUsePattern::Path(path) => lemma_path_distinct(d, s, path, is_public),
    }
}

/// See `lemma_resolve_distinct`.
proof fn lemma_destruct_from_distinct(
    d: SpecScope,
    s: SpecScope,
    ps: SpecPunct<SpecDestructUsePatternNode>,
    i: nat,
    is_public: bool,
    skip_self: bool,
)
    requires
        names_distinct(d),
    ensures
        names_distinct(destruct_from_spec(d, s, ps, i, is_public, skip_self).0),
    decreases ps, (ps.values().len() - i) as nat,
{
    match ps {
        SpecPunct::Empty => {},
        SpecPunct::NonEmpty { first, rest, .. } => if i <= rest.len() {
            let n = if i == 0 {
                first
            } else {
                rest[i - 1].1
            };
            if !(skip_self && is_self_pattern(n)) {
                if i == 0 {
                    lemma_destruct_node_distinct(d, s, first, is_public);
                } else {
                    assert(decreases_to!(ps => rest[i - 1].1)) by {
                        assert(decreases_to!(ps => rest));
                        assert(decreases_to!(rest => rest[i - 1]));
                        assert(decreases_to!(rest[i - 1] => rest[i - 1].1));
                    }
                    lemma_destruct_node_distinct(d, s, rest[i - 1].1, is_public);
                }
            }
            let r = if skip_self && is_self_pattern(n) {
                (d, None)
            } else if i == 0 {
                resolve_destruct_node_spec(d, s, first, is_public)
            } else {
                resolve_destruct_node_spec(d, s, rest[i - 1].1, is_public)
            };
            if r.1 is None {
                lemma_destruct_from_distinct(r.0, s, ps, i + 1, is_public, skip_self);
            }
        },
    }
}

/// See `lemma_resolve_distinct`.
proof fn lemma_path_distinct(d: SpecScope, s: SpecScope, path: SpecUsePatternPath, is_public: bool)
    requires
        names_distinct(d),
    ensures
        names_distinct(resolve_path_spec(d, s, path, is_public).0),
    decreases path, 0nat,
{
    let t = path.parent_name;
    match scope_lookup(s, t.literal) {
        None => {},
        Some(n) => if n.is_public {
            match path.rhs.use_pattern {
                SpecUsePattern::Destruct { patterns, .. } => {
                    lemma_self_inserts_distinct(d, patterns, 0, t.literal, n, is_public);
                    let d1 = self_inserts_spec(d, patterns, 0, t.literal, n, is_public);
                    match n.scope_ref {
                        SpecScopeRef::Mod(ms) => {
                            lemma_destruct_from_distinct(d1, ms, patterns, 0, is_public, true);
                        },
                        _ => {},
                    }
                },
                _ => match n.scope_ref {
                    SpecScopeRef::Mod(ms) => lemma_resolve_distinct(d, ms, *path.rhs, is_public),
                    _ => {},
                },
            }
        },
    }
}

/// Bringing a module for each `self` keeps the names distinct.
proof fn lemma_self_mods_distinct(
    d: SpecScope,
    ps: SpecPunct<SpecDestructUsePatternNode>,
    i: nat,
    k: Seq<char>,
    dep_name: Seq<char>,
    api: SpecScope,
    is_public: bool,
)
    requires
        names_distinct(d),
    ensures
        names_distinct(self_mods_from(d, ps, i, k, dep_name, api, is_public)),
    decreases (ps.values().len() - i) as nat,
{
    if i < ps.values().len() {
        let d1 = if is_self_pattern(ps.values()[i as int]) {
            lemma_insert_distinct(d, k, mod_entry(dep_name, api, is_public));
            scope_insert(d, k, mod_entry(dep_name, api, is_public))
        } else {
            d
        };
        lemma_self_mods_distinct(d1, ps, i + 1, k, dep_name, api, is_public);
    }
}

/// Applying a `use` keeps the names of the scope distinct.
proof fn lemma_apply_use_distinct(s: SpecScope, u: SpecUseNode, dep_name: Seq<char>, api: SpecScope)
    requires
        names_distinct(s),
    ensures
        names_distinct(apply_use_spec(s, u, dep_name, api).0),
{
    let is_public = u.public is Some;
    match u.use_pattern.use_pattern {
        SpecInitUsePattern::Id(t) => lemma_insert_distinct(s, t.literal, mod_entry(dep_name, api, is_public)),
        SpecInitUsePattern::Path(path) => {
            match path.rhs.use_pattern {
                SpecUsePattern::Destruct { open_brace, patterns, close_brace } => {
                    lemma_self_mods_distinct(s, patterns, 0, path.parent_name.literal, dep_name, api, is_public);
                    let s1 = self_mods_from(s, patterns, 0, path.parent_name.literal, dep_name, api, is_public);
                    let rhs = SpecUsePatternNode {
                        use_pattern: SpecUsePattern::Destruct {
                            open_brace,
                            patterns: drop_selves_from(SpecPunct::Empty, None, patterns, 0),
                            close_brace,
                        },
                        span: path.rhs.span,
                    };
                    lemma_resolve_distinct(s1, api, rhs, is_public);
                },
                _ => lemma_resolve_distinct(s, api, *path.rhs, is_public),
            }
        },
        _ => {},
    }
}

/// Filling one item into a scope keeps its names distinct.
proof fn lemma_fill_item_distinct(ctx: FillCtx, s: SpecScope, item: SpecItemNode, a: UsedApis)
    requires
        names_distinct(s),
    ensures
        names_distinct(fill_item_spec(ctx, s, item, a).0),
{
    match item.item {
        SpecItem::Use(u) => match dependency_of(ctx.shape, ctx.node, u) {
            Ok(d) => {
                let api = match a {
                    UsedApis::Use(api) => api,
                    _ => Seq::empty(),
                };
                lemma_apply_use_distinct(s, u, ctx.shape[d as int].name, api);
            },
            Err(_) => {},
        },
        SpecItem::FnDef(f) => lemma_insert_distinct(s, f.name.literal, fn_entry(f)),
        SpecItem::Statement(_) => {},
    }
}

/// Filling items into a scope keeps its names distinct: a scope that the
/// library fills in names nothing twice.
pub proof fn lemma_fill_items_distinct(ctx: FillCtx, s: SpecScope, items: Seq<SpecItemNode>, apis: Seq<UsedApis>)
    requires
        names_distinct(s),
    ensures
        names_distinct(fill_items_spec(ctx, s, items, apis).0),
    decreases items.len(),
{
    if items.len() > 0 {
        lemma_fill_items_distinct(ctx, s, items.drop_last(), apis.take(items.len() - 1));
        let s1 = fill_items_spec(ctx, s, items.drop_last(), apis.take(items.len() - 1)).0;
        lemma_fill_item_distinct(ctx, s1, items[items.len() - 1], apis[items.len() - 1]);
    }
}

} // verus!

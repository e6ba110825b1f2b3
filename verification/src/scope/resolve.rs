//! Resolving `use` patterns: which names a pattern brings from a module's
//! scope into another scope, and what they refer to there.
use vstd::prelude::*;

use crate::lexer::token::{Token, TokenView};
use crate::parser::ast::{DestructInitUsePattern, UsePattern, UsePatternNode, UsePatternPath};
use crate::parser::view::{
    destruct_node_view, destruct_punct_view, scope_ref_node_view, scope_ref_view,
    scope_table_view, use_path_view, use_pattern_node_view, SpecDestructUsePattern,
    SpecDestructUsePatternNode, SpecPunct, SpecScopeRef, SpecScopeRefNode, SpecUsePattern,
    SpecUsePatternNode, SpecUsePatternPath,
};
use crate::punctuated::Punctuated;
use crate::scope::copy::{copy_scope_ref, copy_scope_ref_node};
use crate::scope::laws::lemma_resolve_distinct;
use crate::scope::spec::{entry_is_public, names_distinct, public_only, scope_insert, scope_lookup, SpecScope};
use crate::scope::{ScopeRef, ScopeRefNode, ScopeTable};

verus! {

/// Why the scopes of a project cannot be filled in.
#[derive(Debug)]
pub enum ScopeError {
    /// A file uses itself; the path of the file and the name it used.
    CannotUseSelf(String, Token),
    /// A name that the scope it is looked up in does not have, or a path
    /// through something that is not a module.
    InvalidUsePattern(Token),
    /// A name that the scope it is looked up in does not export, and the
    /// entry it names there.
    CannotUsePrivate(Token, ScopeRefNode),
    /// An entry file exports something other than its `main` function.
    EntryExportsNonMain(Token),
    /// `pub use` in a file other than a package file.
    PubUseOutsidePkg(Token),
    /// `pub use` with a `~/` or `../` prefix.
    PubUseWithPrefix(Token),
    /// A `use` of a module that does not exist.
    DependencyNotFound(Token),
    /// A `../` prefix in a file without a parent directory.
    NoParentDir(Token),
    /// A directory whose package node is not a file.
    PkgNotFile(Token),
    /// A directory without a package node.
    PkgMissing(Token),
    /// An entry file whose `main` function is not public.
    MainNotPublic(Token),
    /// An entry file whose `main` function returns something other than a
    /// plain result.
    InvalidMainReturnType(Token),
    /// Package files that export each other, so that no export can be
    /// filled in first.
    UseCycle(Token),
}

/// A scope error as a mathematical value.
pub enum SpecScopeError {
    CannotUseSelf(Seq<char>, TokenView),
    InvalidUsePattern(TokenView),
    CannotUsePrivate(TokenView, SpecScopeRefNode),
    EntryExportsNonMain(TokenView),
    PubUseOutsidePkg(TokenView),
    PubUseWithPrefix(TokenView),
    DependencyNotFound(TokenView),
    NoParentDir(TokenView),
    PkgNotFile(TokenView),
    PkgMissing(TokenView),
    MainNotPublic(TokenView),
    InvalidMainReturnType(TokenView),
    UseCycle(TokenView),
}

/// The view of a scope error.
pub open spec fn scope_err_view(e: ScopeError) -> SpecScopeError {
    match e {
        ScopeError::CannotUseSelf(p, t) => SpecScopeError::CannotUseSelf(p@, t@),
        ScopeError::InvalidUsePattern(t) => SpecScopeError::InvalidUsePattern(t@),
        ScopeError::CannotUsePrivate(t, n) => SpecScopeError::CannotUsePrivate(t@, scope_ref_node_view(n)),
        ScopeError::EntryExportsNonMain(t) => SpecScopeError::EntryExportsNonMain(t@),
        ScopeError::PubUseOutsidePkg(t) => SpecScopeError::PubUseOutsidePkg(t@),
        ScopeError::PubUseWithPrefix(t) => SpecScopeError::PubUseWithPrefix(t@),
        ScopeError::DependencyNotFound(t) => SpecScopeError::DependencyNotFound(t@),
        ScopeError::NoParentDir(t) => SpecScopeError::NoParentDir(t@),
        ScopeError::PkgNotFile(t) => SpecScopeError::PkgNotFile(t@),
        ScopeError::PkgMissing(t) => SpecScopeError::PkgMissing(t@),
        ScopeError::MainNotPublic(t) => SpecScopeError::MainNotPublic(t@),
        ScopeError::InvalidMainReturnType(t) => SpecScopeError::InvalidMainReturnType(t@),
        ScopeError::UseCycle(t) => SpecScopeError::UseCycle(t@),
    }
}

/// What a step of filling a scope leaves: the scope, and the error that
/// stopped it, if one did.
pub type Filled = (SpecScope, Option<SpecScopeError>);

/// Whether `r`, with `dest` left as it is, is the outcome `f`.
pub open spec fn filled_as(dest: ScopeTable, r: Result<(), ScopeError>, f: Filled) -> bool {
    &&& scope_table_view(dest) == f.0
    &&& match r {
        Ok(()) => f.1 is None,
        Err(e) => f.1 == Some(scope_err_view(e)),
    }
}

/// The entry a name brings into the destination scope: named as used,
/// exported as the `use` is, referring to what the source entry refers to,
/// with a module reduced to its public entries.
pub open spec fn used_entry(k: Seq<char>, n: SpecScopeRefNode, is_public: bool) -> SpecScopeRefNode {
    SpecScopeRefNode { name: k, is_public, scope_ref: public_only(n.scope_ref) }
}

/// A single name `t`, looked up in `s`, brought into `d`.
pub open spec fn resolve_id_spec(d: SpecScope, s: SpecScope, t: TokenView, is_public: bool) -> Filled {
    match scope_lookup(s, t.literal) {
        None => (d, Some(SpecScopeError::InvalidUsePattern(t))),
        Some(n) => if !n.is_public {
            (d, Some(SpecScopeError::CannotUsePrivate(t, n)))
        } else {
            (scope_insert(d, t.literal, used_entry(t.literal, n, is_public)), None)
        },
    }
}

/// `*`: every public entry of `s`, in order, brought into `d`.
pub open spec fn wild_spec(d: SpecScope, s: SpecScope, is_public: bool) -> SpecScope
    decreases s.len(),
{
    if s.len() == 0 {
        d
    } else {
        let d1 = if s[0].1.is_public {
            scope_insert(d, s[0].0, used_entry(s[0].0, s[0].1, is_public))
        } else {
            d
        };
        wild_spec(d1, s.drop_first(), is_public)
    }
}

/// A pattern after `::`, resolved against `s` into `d`.
pub open spec fn resolve_pattern_spec(d: SpecScope, s: SpecScope, p: SpecUsePatternNode, is_public: bool) -> Filled
    decreases p, 0nat,
{
    match p.use_pattern {
        SpecUsePattern::Id(t) => resolve_id_spec(d, s, t, is_public),
        SpecUsePattern::Wild(_) => (wild_spec(d, s, is_public), None),
        SpecUsePattern::Path(path) => resolve_path_spec(d, s, path, is_public),
        SpecUsePattern::Destruct { patterns, .. } => destruct_from_spec(d, s, patterns, 0, is_public, false),
    }
}

/// A pattern inside `{ ... }`, resolved against `s` into `d`; `self` is
/// looked up as a name.
pub open spec fn resolve_destruct_node_spec(d: SpecScope, s: SpecScope, n: SpecDestructUsePatternNode, is_public: bool) -> Filled
    decreases n, 0nat,
{
    match n.use_pattern {
        SpecDestructUsePattern::Id(t) => resolve_id_spec(d, s, t, is_public),
        SpecDestructUsePattern::Self_(t) => resolve_id_spec(d, s, t, is_public),
        SpecDestructUsePattern::Wild(_) => (wild_spec(d, s, is_public), None),
        SpecDestructUsePattern::Path(path) => resolve_path_spec(d, s, path, is_public),
    }
}

/// Whether a pattern inside `{ ... }` is `self`.
pub open spec fn is_self_pattern(n: SpecDestructUsePatternNode) -> bool {
    n.use_pattern is Self_
}

/// The patterns of `{ ... }` from the `i`-th on, resolved in order against
/// `s` into `d`, up to the first error; `self` skipped when `skip_self`.
pub open spec fn destruct_from_spec(
    d: SpecScope,
    s: SpecScope,
    ps: SpecPunct<SpecDestructUsePatternNode>,
    i: nat,
    is_public: bool,
    skip_self: bool,
) -> Filled
    decreases ps, (ps.values().len() - i) as nat,
{
    match ps {
        SpecPunct::Empty => (d, None),
        SpecPunct::NonEmpty { first, rest, .. } => if i > rest.len() {
            (d, None)
        } else {
            let n = if i == 0 {
                first
            } else {
                rest[i - 1].1
            };
            let r = if skip_self && is_self_pattern(n) {
                (d, None)
            } else if i == 0 {
                resolve_destruct_node_spec(d, s, first, is_public)
            } else {
                resolve_destruct_node_spec(d, s, rest[i - 1].1, is_public)
            };
            if r.1 is Some {
                r
            } else {
                destruct_from_spec(r.0, s, ps, i + 1, is_public, skip_self)
            }
        },
    }
}

/// For each `self` among the patterns of `{ ... }` from the `i`-th on, the
/// module's own name `k` brought into `d`, referring to `r`.
pub open spec fn self_inserts_spec(
    d: SpecScope,
    ps: SpecPunct<SpecDestructUsePatternNode>,
    i: nat,
    k: Seq<char>,
    r: SpecScopeRefNode,
    is_public: bool,
) -> SpecScope
    decreases (ps.values().len() - i) as nat,
{
    if i >= ps.values().len() {
        d
    } else {
        let d1 = if is_self_pattern(ps.values()[i as int]) {
            scope_insert(d, k, used_entry(k, r, is_public))
        } else {
            d
        };
        self_inserts_spec(d1, ps, i + 1, k, r, is_public)
    }
}

/// `name::rest`: `name` looked up in `s`; the `self`s of a `{ ... }` rest
/// bring `name` itself; the rest is then resolved against the scope of the
/// module `name` refers to.
pub open spec fn resolve_path_spec(d: SpecScope, s: SpecScope, path: SpecUsePatternPath, is_public: bool) -> Filled
    decreases path, 0nat,
{
    let t = path.parent_name;
    match scope_lookup(s, t.literal) {
        None => (d, Some(SpecScopeError::InvalidUsePattern(t))),
        Some(n) => if !n.is_public {
            (d, Some(SpecScopeError::CannotUsePrivate(t, n)))
        } else {
            match path.rhs.use_pattern {
                SpecUsePattern::Destruct { patterns, .. } => {
                    let d1 = self_inserts_spec(d, patterns, 0, t.literal, n, is_public);
                    match n.scope_ref {
                        SpecScopeRef::Mod(ms) => destruct_from_spec(d1, ms, patterns, 0, is_public, true),
                        _ => (d1, Some(SpecScopeError::InvalidUsePattern(t))),
                    }
                },
                _ => match n.scope_ref {
                    SpecScopeRef::Mod(ms) => resolve_pattern_spec(d, ms, *path.rhs, is_public),
                    _ => (d, Some(SpecScopeError::InvalidUsePattern(t))),
                },
            }
        },
    }
}

/// What a reference exposes to a user: of a module, only its public
/// entries, in order; anything else unchanged.
pub fn public_only_scope_ref(scope_ref: ScopeRef) -> (r: ScopeRef)
    ensures
        scope_ref_view(r) == public_only(scope_ref_view(scope_ref)),
{
    match scope_ref {
        ScopeRef::Mod(mut scope) => {
            let ghost orig = scope_table_view(scope);
            let mut kept: Vec<(String, ScopeRefNode)> = Vec::new();
            let mut i: usize = 0;
            let n: usize = scope.entries.len();
            assert(orig.len() == n);
            while scope.entries.len() > 0
                invariant
                    i + scope.entries@.len() == orig.len(),
                    orig.len() <= usize::MAX,
                    scope_table_view(scope) == orig.skip(i as int),
                    scope_table_view(ScopeTable { entries: kept }) == orig.take(i as int).filter(
                        |e: (Seq<char>, SpecScopeRefNode)| entry_is_public(e),
                    ),
                decreases scope.entries@.len(),
            {
                let ghost before = scope_table_view(scope);
                let ghost kept_before = scope_table_view(ScopeTable { entries: kept });
                let e = scope.entries.remove(0);
                proof {
                    assert(before[0] == orig[i as int]);
                    assert(scope_table_view(scope) =~= before.drop_first());
                    assert(orig.skip(i as int).drop_first() =~= orig.skip(i + 1));
                    assert(orig.take(i + 1).drop_last() =~= orig.take(i as int));
                    reveal(Seq::filter);
                }
                if e.1.is_public {
                    kept.push(e);
                    assert(scope_table_view(ScopeTable { entries: kept }) =~= kept_before.push(orig[i as int]));
                }
                i = i + 1;
            }
            assert(orig.take(i as int) =~= orig);
            ScopeRef::Mod(ScopeTable { entries: kept })
        },
        other => other,
    }
}

/// A single name, looked up in `src`, brought into `dest`.
fn resolve_id(dest: &mut ScopeTable, src: &ScopeTable, t: &Token, is_public: bool) -> (r: Result<(), ScopeError>)
    ensures
        filled_as(
            *final(dest),
            r,
            resolve_id_spec(scope_table_view(*old(dest)), scope_table_view(*src), t@, is_public),
        ),
{
    let scope_ref = match src.get(&t.literal) {
        Some(n) => n,
        None => return Err(ScopeError::InvalidUsePattern(t.duplicate())),
    };
    if !scope_ref.is_public {
        return Err(ScopeError::CannotUsePrivate(t.duplicate(), copy_scope_ref_node(scope_ref)));
    }
    let used = public_only_scope_ref(copy_scope_ref(&scope_ref.scope_ref));
    dest.insert(t.literal.clone(), ScopeRefNode { name: t.literal.clone(), is_public, scope_ref: used });
    Ok(())
}

/// `*`: every public entry of `src`, in order, brought into `dest`.
fn resolve_wild(dest: &mut ScopeTable, src: &ScopeTable, is_public: bool)
    ensures
        scope_table_view(*final(dest)) == wild_spec(
            scope_table_view(*old(dest)),
            scope_table_view(*src),
            is_public,
        ),
{
    let ghost s = scope_table_view(*src);
    let ghost d0 = scope_table_view(*dest);
    let mut i: usize = 0;
    assert(s.skip(0) =~= s);
    while i < src.entries.len()
        invariant
            i <= src.entries@.len(),
            s == scope_table_view(*src),
            wild_spec(d0, s, is_public) == wild_spec(scope_table_view(*dest), s.skip(i as int), is_public),
        decreases src.entries@.len() - i,
    {
        assert(s.skip(i as int).drop_first() =~= s.skip(i + 1));
        assert(s.skip(i as int)[0] == s[i as int]);
        let (name, node) = (&src.entries[i].0, &src.entries[i].1);
        if node.is_public {
            let used = public_only_scope_ref(copy_scope_ref(&node.scope_ref));
            dest.insert(name.clone(), ScopeRefNode { name: name.clone(), is_public, scope_ref: used });
        }
        i = i + 1;
    }
    assert(s.skip(i as int) =~= Seq::<(Seq<char>, SpecScopeRefNode)>::empty());
}

/// Brings `dest` the patterns of `use_pattern`, looked up in `src`: the
/// names the pattern selects enter `dest`, exported when `is_public`,
/// referring to what they refer to in `src` (a module reduced to its
/// public entries). Names `src` lacks, or does not export, are errors.
pub fn resolve_use_pattern(
    dest: &mut ScopeTable,
    src: &ScopeTable,
    use_pattern: &UsePatternNode,
    is_public: bool,
) -> (r: Result<(), ScopeError>)
    ensures
        filled_as(
            *final(dest),
            r,
            resolve_pattern_spec(
                scope_table_view(*old(dest)),
                scope_table_view(*src),
                use_pattern_node_view(*use_pattern),
                is_public,
            ),
        ),
        names_distinct(scope_table_view(*old(dest))) ==> names_distinct(scope_table_view(*final(dest))),
    decreases *use_pattern,
{
    proof {
        if names_distinct(scope_table_view(*dest)) {
            lemma_resolve_distinct(
                scope_table_view(*dest),
                scope_table_view(*src),
                use_pattern_node_view(*use_pattern),
                is_public,
            );
        }
    }
    match &use_pattern.use_pattern {
        UsePattern::Id(t) => resolve_id(dest, src, t, is_public),
        UsePattern::Wild(_) => {
            resolve_wild(dest, src, is_public);
            Ok(())
        },
        UsePattern::Path(path) => resolve_path(dest, src, path, is_public),
        UsePattern::Destruct(d) => resolve_destruct_list(dest, src, &d.patterns, is_public, false),
    }
}

/// A pattern inside `{ ... }`, resolved against `src` into `dest`.
fn resolve_destruct_node(
    dest: &mut ScopeTable,
    src: &ScopeTable,
    n: &UsePatternNode<DestructInitUsePattern>,
    is_public: bool,
) -> (r: Result<(), ScopeError>)
    ensures
        filled_as(
            *final(dest),
            r,
            resolve_destruct_node_spec(
                scope_table_view(*old(dest)),
                scope_table_view(*src),
                destruct_node_view(*n),
                is_public,
            ),
        ),
    decreases *n,
{
    match &n.use_pattern {
        DestructInitUsePattern::Id(t) => resolve_id(dest, src, t, is_public),
        DestructInitUsePattern::Self_(t) => resolve_id(dest, src, t, is_public),
        DestructInitUsePattern::Wild(_) => {
            resolve_wild(dest, src, is_public);
            Ok(())
        },
        DestructInitUsePattern::Path(path) => resolve_path(dest, src, path, is_public),
    }
}

/// Whether a pattern inside `{ ... }` is `self`.
fn exec_is_self(n: &UsePatternNode<DestructInitUsePattern>) -> (b: bool)
    ensures
        b == is_self_pattern(destruct_node_view(*n)),
{
    match &n.use_pattern {
        DestructInitUsePattern::Self_(_) => true,
        _ => false,
    }
}

/// The patterns of `{ ... }`, resolved in order against `src` into `dest`
/// up to the first error; `self` skipped when `skip_self`.
fn resolve_destruct_list(
    dest: &mut ScopeTable,
    src: &ScopeTable,
    ps: &Punctuated<Box<UsePatternNode<DestructInitUsePattern>>, Token>,
    is_public: bool,
    skip_self: bool,
) -> (r: Result<(), ScopeError>)
    ensures
        filled_as(
            *final(dest),
            r,
            destruct_from_spec(
                scope_table_view(*old(dest)),
                scope_table_view(*src),
                destruct_punct_view(*ps),
                0,
                is_public,
                skip_self,
            ),
        ),
    decreases *ps,
{
    let ghost s = scope_table_view(*src);
    let ghost pv = destruct_punct_view(*ps);
    let ghost d0 = scope_table_view(*dest);
    match ps {
        Punctuated::Empty => Ok(()),
        Punctuated::NonEmpty { first, rest, .. } => {
            if !(skip_self && exec_is_self(first)) {
                match resolve_destruct_node(dest, src, first, is_public) {
                    Ok(()) => {},
                    Err(e) => return Err(e),
                }
            }
            assert forall|k: int| 0 <= k < rest@.len() implies decreases_to!(*ps => *rest@[k].1) by {
                assert(decreases_to!(*ps => *rest));
                assert(decreases_to!(*rest => rest@));
                assert(decreases_to!(rest@ => rest@[k]));
                assert(decreases_to!(rest@[k] => rest@[k].1));
            }
            let mut j: usize = 0;
            while j < rest.len()
                invariant
                    forall|k: int| 0 <= k < rest@.len() ==> decreases_to!(*ps => *rest@[k].1),
                    j <= rest@.len(),
                    s == scope_table_view(*src),
                    pv == destruct_punct_view(*ps),
                    d0 == scope_table_view(*old(dest)),
                    *ps is NonEmpty,
                    (*ps)->rest == *rest,
                    destruct_from_spec(d0, s, pv, 0, is_public, skip_self) == destruct_from_spec(
                        scope_table_view(*dest),
                        s,
                        pv,
                        (j + 1) as nat,
                        is_public,
                        skip_self,
                    ),
                decreases rest@.len() - j,
            {
                let n = &rest[j].1;
                assert(pv->rest[j as int].1 == destruct_node_view(*rest@[j as int].1));
                if !(skip_self && exec_is_self(n)) {
                    match resolve_destruct_node(dest, src, n, is_public) {
                        Ok(()) => {},
                        Err(e) => return Err(e),
                    }
                }
                j = j + 1;
            }
            Ok(())
        },
    }
}

/// For each `self` among the patterns of `{ ... }`, the module's own name
/// brought into `dest`, referring to what `n` refers to.
fn self_inserts(
    dest: &mut ScopeTable,
    ps: &Punctuated<Box<UsePatternNode<DestructInitUsePattern>>, Token>,
    name: &String,
    n: &ScopeRefNode,
    is_public: bool,
)
    ensures
        scope_table_view(*final(dest)) == self_inserts_spec(
            scope_table_view(*old(dest)),
            destruct_punct_view(*ps),
            0,
            name@,
            scope_ref_node_view(*n),
            is_public,
        ),
{
    let ghost pv = destruct_punct_view(*ps);
    let ghost nv = scope_ref_node_view(*n);
    let ghost d0 = scope_table_view(*dest);
    match ps {
        Punctuated::Empty => {},
        Punctuated::NonEmpty { first, rest, .. } => {
            assert(pv.values()[0] == destruct_node_view(**first));
            if exec_is_self(first) {
                let used = public_only_scope_ref(copy_scope_ref(&n.scope_ref));
                dest.insert(name.clone(), ScopeRefNode { name: name.clone(), is_public, scope_ref: used });
            }
            let mut j: usize = 0;
            while j < rest.len()
                invariant
                    j <= rest@.len(),
                    pv == destruct_punct_view(*ps),
                    nv == scope_ref_node_view(*n),
                    *ps is NonEmpty,
                    (*ps)->rest == *rest,
                    pv.values().len() == rest@.len() + 1,
                    self_inserts_spec(d0, pv, 0, name@, nv, is_public) == self_inserts_spec(
                        scope_table_view(*dest),
                        pv,
                        (j + 1) as nat,
                        name@,
                        nv,
                        is_public,
                    ),
                decreases rest@.len() - j,
            {
                assert(pv.values()[j + 1] == destruct_node_view(*rest@[j as int].1));
                if exec_is_self(&rest[j].1) {
                    let used = public_only_scope_ref(copy_scope_ref(&n.scope_ref));
                    dest.insert(name.clone(), ScopeRefNode { name: name.clone(), is_public, scope_ref: used });
                }
                j = j + 1;
            }
        },
    }
}

/// `name::rest`, resolved against `src` into `dest`.
fn resolve_path(dest: &mut ScopeTable, src: &ScopeTable, path: &UsePatternPath, is_public: bool) -> (r: Result<
    (),
    ScopeError,
>)
    ensures
        filled_as(
            *final(dest),
            r,
            resolve_path_spec(scope_table_view(*old(dest)), scope_table_view(*src), use_path_view(*path), is_public),
        ),
    decreases *path,
{
    let t = &path.parent_name;
    let scope_ref = match src.get(&t.literal) {
        Some(n) => n,
        None => return Err(ScopeError::InvalidUsePattern(t.duplicate())),
    };
    if !scope_ref.is_public {
        return Err(ScopeError::CannotUsePrivate(t.duplicate(), copy_scope_ref_node(scope_ref)));
    }
    match &path.rhs.use_pattern {
        UsePattern::Destruct(d) => {
            self_inserts(dest, &d.patterns, &t.literal, scope_ref, is_public);
            match &scope_ref.scope_ref {
                ScopeRef::Mod(ms) => resolve_destruct_list(dest, ms, &d.patterns, is_public, true),
                _ => Err(ScopeError::InvalidUsePattern(t.duplicate())),
            }
        },
        _ => match &scope_ref.scope_ref {
            ScopeRef::Mod(ms) => resolve_use_pattern(dest, ms, &path.rhs, is_public),
            _ => Err(ScopeError::InvalidUsePattern(t.duplicate())),
        },
    }
}

} // verus!

//! What filling in the scopes of a file does, as mathematical functions
//! over the shape of the module tree and the views of the items.
use vstd::prelude::*;

use crate::lexer::token::TokenView;
use crate::parser::spec::spunct_push;
use crate::parser::view::{
    SpecDestructUsePatternNode, SpecFnDefBody, SpecFnDefNode, SpecInitUsePattern, SpecItem,
    SpecItemNode, SpecPatternPrefix, SpecPunct, SpecScopeRef, SpecScopeRefNode, SpecType,
    SpecUseNode, SpecUsePattern, SpecUsePatternNode,
};
use crate::scope::resolve::{is_self_pattern, resolve_pattern_spec, Filled, SpecScopeError};
use crate::scope::spec::{scope_insert, SpecScope};
use crate::tree::{link_lookup, top_ancestor, SpecModNode};

verus! {

/// The token a `use` names its dependency by: the pattern's first name.
pub open spec fn dependency_token(u: SpecUseNode) -> TokenView {
    match u.use_pattern.use_pattern {
        SpecInitUsePattern::Id(t) => t,
        SpecInitUsePattern::Path(p) => p.parent_name,
    }
}

/// The node named `k` as seen from node `r`: `r` itself if it has that
/// name, else its sibling of that name.
pub open spec fn named_from(s: Seq<SpecModNode>, r: int, t: TokenView) -> Result<usize, SpecScopeError> {
    if s[r].name == t.literal {
        Ok(r as usize)
    } else {
        match link_lookup(s[r].siblings, t.literal) {
            Some(d) => Ok(d),
            None => Err(SpecScopeError::DependencyNotFound(t)),
        }
    }
}

/// The node a `use` in node `n` depends on. Without a prefix it is a
/// sibling of `n`; with `~/` it is found from the topmost directory above
/// `n`; with one or more `../` it is found from the directory `n` is in.
pub open spec fn dependency_of(s: Seq<SpecModNode>, n: int, u: SpecUseNode) -> Result<usize, SpecScopeError> {
    let t = dependency_token(u);
    if t.literal == s[n].name {
        Err(SpecScopeError::CannotUseSelf(s[n].path, t))
    } else {
        match u.pattern_prefix {
            Some(SpecPatternPrefix::Root { .. }) => named_from(s, top_ancestor(s, n), t),
            Some(SpecPatternPrefix::Rel { parent_dirs, .. }) => if parent_dirs.len() == 0 {
                named_from(s, n, t)
            } else {
                match s[n].parent {
                    Some(p) => named_from(s, p as int, t),
                    None => Err(SpecScopeError::NoParentDir(t)),
                }
            },
            None => match link_lookup(s[n].siblings, t.literal) {
                Some(d) => Ok(d),
                None => Err(SpecScopeError::DependencyNotFound(t)),
            },
        }
    }
}

/// The text `_pkg`, the name of a directory's package file.
pub open spec fn pkg_name() -> Seq<char> {
    seq!['_', 'p', 'k', 'g']
}

/// The file node whose exports a dependency `d` offers: `d` itself if it
/// is a file, else the package file of the directory.
pub open spec fn dependency_file_of(s: Seq<SpecModNode>, d: int, t: TokenView) -> Result<usize, SpecScopeError> {
    if !s[d].is_dir {
        Ok(d as usize)
    } else {
        match link_lookup(s[d].children, pkg_name()) {
            Some(c) => if s[c as int].is_dir {
                Err(SpecScopeError::PkgNotFile(t))
            } else {
                Ok(c)
            },
            None => Err(SpecScopeError::PkgMissing(t)),
        }
    }
}

/// What stays the same while the items of one file are filled in: the
/// shape of the tree, the node the items belong to, whether that node is a
/// package file, whether only exports are filled in, and whether the file
/// is the entry file.
pub struct FillCtx {
    pub shape: Seq<SpecModNode>,
    pub node: int,
    pub is_pkg: bool,
    pub filling_pub_api: bool,
    pub is_entry: bool,
}

/// The exports of the dependencies that the `use` items met, in the order
/// met: for a `use`, the exports it was resolved against; for a function,
/// those of the items of its body.
pub enum UsedApis {
    Use(SpecScope),
    Body(Seq<UsedApis>),
    Nothing,
}

/// The `{ ... }` patterns from the `i`-th on without the `self`s, appended
/// to `acc`; `prev` is the comma after the last pattern kept.
pub open spec fn drop_selves_from(
    acc: SpecPunct<SpecDestructUsePatternNode>,
    prev: Option<TokenView>,
    ps: SpecPunct<SpecDestructUsePatternNode>,
    i: nat,
) -> SpecPunct<SpecDestructUsePatternNode>
    decreases (ps.values().len() - i) as nat,
{
    if i >= ps.values().len() {
        acc
    } else {
        let v = ps.values()[i as int];
        if is_self_pattern(v) {
            drop_selves_from(acc, prev, ps, i + 1)
        } else {
            drop_selves_from(spunct_push(acc, prev, v), spunct_delim_after(ps, i), ps, i + 1)
        }
    }
}

/// The comma after the `i`-th value, if any.
pub open spec fn spunct_delim_after<T>(ps: SpecPunct<T>, i: nat) -> Option<TokenView> {
    match ps {
        SpecPunct::Empty => None,
        SpecPunct::NonEmpty { rest, trailing, .. } => if i < rest.len() {
            Some(rest[i as int].0)
        } else {
            trailing
        },
    }
}

/// The entry a module brings into a scope.
pub open spec fn mod_entry(name: Seq<char>, api: SpecScope, is_public: bool) -> SpecScopeRefNode {
    SpecScopeRefNode { name, is_public, scope_ref: SpecScopeRef::Mod(api) }
}

/// For each `self` among the `{ ... }` patterns from the `i`-th on, `k`
/// brought into `d` as the module `dep_name` with exports `api`.
pub open spec fn self_mods_from(
    d: SpecScope,
    ps: SpecPunct<SpecDestructUsePatternNode>,
    i: nat,
    k: Seq<char>,
    dep_name: Seq<char>,
    api: SpecScope,
    is_public: bool,
) -> SpecScope
    decreases (ps.values().len() - i) as nat,
{
    if i >= ps.values().len() {
        d
    } else {
        let d1 = if is_self_pattern(ps.values()[i as int]) {
            scope_insert(d, k, mod_entry(dep_name, api, is_public))
        } else {
            d
        };
        self_mods_from(d1, ps, i + 1, k, dep_name, api, is_public)
    }
}

/// A `use` whose dependency `dep_name` exports `api`, applied to scope
/// `s`: `use name` brings the module; `use name::{...}` brings the module
/// for each `self`, drops the `self`s from the pattern, and resolves the
/// rest of the pattern against `api`. Gives the scope, the `use` as
/// rewritten, and the error, if any.
pub open spec fn apply_use_spec(s: SpecScope, u: SpecUseNode, dep_name: Seq<char>, api: SpecScope) -> (
    SpecScope,
    SpecUseNode,
    Option<SpecScopeError>,
) {
    let is_public = u.public is Some;
    match u.use_pattern.use_pattern {
        SpecInitUsePattern::Id(t) => (scope_insert(s, t.literal, mod_entry(dep_name, api, is_public)), u, None),
        SpecInitUsePattern::Path(path) => {
            let (s1, rhs) = match path.rhs.use_pattern {
                SpecUsePattern::Destruct { open_brace, patterns, close_brace } => (
                    self_mods_from(s, patterns, 0, path.parent_name.literal, dep_name, api, is_public),
                    SpecUsePatternNode {
                        use_pattern: SpecUsePattern::Destruct {
                            open_brace,
                            patterns: drop_selves_from(SpecPunct::Empty, None, patterns, 0),
                            close_brace,
                        },
                        span: path.rhs.span,
                    },
                ),
                _ => (s, *path.rhs),
            };
            let f: Filled = resolve_pattern_spec(s1, api, rhs, is_public);
            let u2 = SpecUseNode {
                use_pattern: crate::parser::view::SpecInitUsePatternNode {
                    use_pattern: SpecInitUsePattern::Path(
                        crate::parser::view::SpecUsePatternPath { rhs: Box::new(rhs), ..path },
                    ),
                    ..u.use_pattern
                },
                ..u
            };
            (f.0, u2, f.1)
        },
    }
}

/// The checks on a `use` before its dependency is looked up: only package
/// files export uses, never the entry file, and never with a prefix.
pub open spec fn use_check(ctx: FillCtx, u: SpecUseNode) -> Option<SpecScopeError> {
    match u.public {
        Some(p) => if ctx.is_entry {
            Some(SpecScopeError::EntryExportsNonMain(p))
        } else if !ctx.is_pkg {
            Some(SpecScopeError::PubUseOutsidePkg(p))
        } else if u.pattern_prefix is Some {
            Some(SpecScopeError::PubUseWithPrefix(p))
        } else {
            None
        },
        None => None,
    }
}

/// The text `main`.
pub open spec fn main_name() -> Seq<char> {
    seq!['m', 'a', 'i', 'n']
}

/// The checks on a function of the entry file: `main` must be public and
/// return nothing or a plain result, and nothing else may be exported.
pub open spec fn fn_check(ctx: FillCtx, f: SpecFnDefNode) -> Option<SpecScopeError> {
    if ctx.is_entry && f.name.literal == main_name() {
        if f.pub_token is None {
            Some(SpecScopeError::MainNotPublic(f.name))
        } else {
            match f.return_type {
                Some((_, t)) => match t.typ {
                    SpecType::Result(None) => None,
                    _ => Some(SpecScopeError::InvalidMainReturnType(f.name)),
                },
                None => None,
            }
        }
    } else if ctx.is_entry && f.pub_token is Some {
        Some(SpecScopeError::EntryExportsNonMain(f.name))
    } else {
        None
    }
}

/// The scope entry of a function.
pub open spec fn fn_entry(f: SpecFnDefNode) -> SpecScopeRefNode {
    SpecScopeRefNode {
        name: f.name.literal,
        is_public: f.pub_token is Some,
        scope_ref: SpecScopeRef::Fn {
            name: f.name.literal,
            params: f.params.values(),
            return_type: match f.return_type {
                Some((_, t)) => Some(t.typ),
                None => None,
            },
        },
    }
}

/// The context for the items of a function body: the same node, never the
/// entry file.
pub open spec fn body_ctx(ctx: FillCtx) -> FillCtx {
    FillCtx { is_entry: false, ..ctx }
}

/// Items filled into scope `s` in order, `apis` giving what each met (see
/// `fill_item_spec`): the scope, the items as rewritten, and the first
/// error, if any.
pub open spec fn fill_items_spec(ctx: FillCtx, s: SpecScope, items: Seq<SpecItemNode>, apis: Seq<UsedApis>) -> (
    SpecScope,
    Seq<SpecItemNode>,
    Option<SpecScopeError>,
)
    decreases items,
{
    if items.len() == 0 {
        (s, items, None)
    } else {
        let (s1, done, e1) = fill_items_spec(ctx, s, items.drop_last(), apis.take(items.len() - 1));
        if e1 is Some {
            (s1, done, e1)
        } else {
            let (s2, it, e2) = fill_item_spec(ctx, s1, items[items.len() - 1], apis[items.len() - 1]);
            (s2, done.push(it), e2)
        }
    }
}

/// An item filled into scope `s`. A `use` passes its checks, is skipped
/// when only exports are filled in and it is not exported, finds its
/// dependency, and is applied with the exports `a` offers. A function
/// passes its checks, is skipped likewise, enters the scope, and has the
/// items of its body filled into its own scope. A statement changes
/// nothing.
pub open spec fn fill_item_spec(ctx: FillCtx, s: SpecScope, item: SpecItemNode, a: UsedApis) -> (
    SpecScope,
    SpecItemNode,
    Option<SpecScopeError>,
)
    decreases item,
{
    match item.item {
        SpecItem::Use(u) => match use_check(ctx, u) {
            Some(e) => (s, item, Some(e)),
            None => if ctx.filling_pub_api && u.public is None {
                (s, item, None)
            } else {
                match dependency_of(ctx.shape, ctx.node, u) {
                    Err(e) => (s, item, Some(e)),
                    Ok(d) => match dependency_file_of(ctx.shape, d as int, dependency_token(u)) {
                        Err(e) => (s, item, Some(e)),
                        Ok(_) => {
                            let api = match a {
                                UsedApis::Use(api) => api,
                                _ => Seq::empty(),
                            };
                            let (s1, u1, e) = apply_use_spec(s, u, ctx.shape[d as int].name, api);
                            (s1, SpecItemNode { item: SpecItem::Use(u1), ..item }, e)
                        },
                    },
                }
            },
        },
        SpecItem::FnDef(f) => if ctx.filling_pub_api && f.pub_token is None {
            (s, item, None)
        } else {
            match fn_check(ctx, f) {
                Some(e) => (s, item, Some(e)),
                None => {
                    let s1 = scope_insert(s, f.name.literal, fn_entry(f));
                    let nested = match a {
                        UsedApis::Body(n) => n,
                        _ => Seq::empty(),
                    };
                    let (fs, body, e) = match f.body {
                        SpecFnDefBody::Block { items, close_semicolon, span } => {
                            let (fs, its, e) = fill_items_spec(body_ctx(ctx), f.scope, items, nested);
                            (fs, SpecFnDefBody::Block { items: its, close_semicolon, span }, e)
                        },
                        SpecFnDefBody::Stmt { fat_arrow, stmt, span } => {
                            let (fs, it, e) = fill_item_spec(
                                body_ctx(ctx),
                                f.scope,
                                *stmt,
                                if nested.len() > 0 {
                                    nested[0]
                                } else {
                                    UsedApis::Nothing
                                },
                            );
                            (fs, SpecFnDefBody::Stmt { fat_arrow, stmt: Box::new(it), span }, e)
                        },
                    };
                    (s1, SpecItemNode { item: SpecItem::FnDef(SpecFnDefNode { scope: fs, body, ..f }), ..item }, e)
                },
            }
        },
        SpecItem::Statement(_) => (s, item, None),
    }
}

/// The exports that the `use` items among `items` are resolved against
/// when every node `k` exports `ex[k]`: for a `use`, those of the file its
/// dependency leads to; for a function, those met in its body.
pub open spec fn used_apis_of_items(ctx: FillCtx, items: Seq<SpecItemNode>, ex: Seq<SpecScope>) -> Seq<UsedApis>
    decreases items,
{
    if items.len() == 0 {
        Seq::empty()
    } else {
        used_apis_of_items(ctx, items.drop_last(), ex).push(used_apis_of_item(ctx, items[items.len() - 1], ex))
    }
}

/// The exports one item meets (see `used_apis_of_items`).
pub open spec fn used_apis_of_item(ctx: FillCtx, item: SpecItemNode, ex: Seq<SpecScope>) -> UsedApis
    decreases item,
{
    match item.item {
        SpecItem::Use(u) => match dependency_of(ctx.shape, ctx.node, u) {
            Ok(d) => match dependency_file_of(ctx.shape, d as int, dependency_token(u)) {
                Ok(f) => UsedApis::Use(ex[f as int]),
                Err(_) => UsedApis::Nothing,
            },
            Err(_) => UsedApis::Nothing,
        },
        SpecItem::FnDef(f) => UsedApis::Body(
            match f.body {
                SpecFnDefBody::Block { items, .. } => used_apis_of_items(body_ctx(ctx), items, ex),
                SpecFnDefBody::Stmt { stmt, .. } => seq![used_apis_of_item(body_ctx(ctx), *stmt, ex)],
            },
        ),
        SpecItem::Statement(_) => UsedApis::Nothing,
    }
}

/// Items filled into scope `s` in order when every node `k` exports
/// `ex[k]`: the scope, the items as rewritten, and the first error, if any.
pub open spec fn fill_items_from(ctx: FillCtx, s: SpecScope, items: Seq<SpecItemNode>, ex: Seq<SpecScope>) -> (
    SpecScope,
    Seq<SpecItemNode>,
    Option<SpecScopeError>,
) {
    fill_items_spec(ctx, s, items, used_apis_of_items(ctx, items, ex))
}

/// Each item meets one entry of exports.
pub proof fn lemma_used_apis_len(ctx: FillCtx, items: Seq<SpecItemNode>, ex: Seq<SpecScope>)
    ensures
        used_apis_of_items(ctx, items, ex).len() == items.len(),
    decreases items.len(),
{
    if items.len() > 0 {
        lemma_used_apis_len(ctx, items.drop_last(), ex);
    }
}

/// Where filling the first `i` items fails, filling them all fails the
/// same way.
pub proof fn lemma_fill_err_sticks(ctx: FillCtx, s: SpecScope, items: Seq<SpecItemNode>, ex: Seq<SpecScope>, i: int)
    requires
        0 <= i <= items.len(),
        fill_items_from(ctx, s, items.take(i), ex).2 is Some,
    ensures
        fill_items_from(ctx, s, items, ex).2 == fill_items_from(ctx, s, items.take(i), ex).2,
    decreases items.len() - i,
{
    if i < items.len() {
        let t1 = items.take(i + 1);
        assert(t1.drop_last() =~= items.take(i));
        assert(t1.len() == i + 1);
        assert(used_apis_of_items(ctx, t1, ex) == used_apis_of_items(ctx, t1.drop_last(), ex).push(
            used_apis_of_item(ctx, t1[i], ex),
        ));
        lemma_used_apis_len(ctx, items.take(i), ex);
        assert(used_apis_of_items(ctx, t1, ex).take(i) =~= used_apis_of_items(ctx, items.take(i), ex));
        lemma_fill_err_sticks(ctx, s, items, ex, i + 1);
    } else {
        assert(items.take(i) =~= items);
    }
}

/// The exports and the items of every node (none for a directory), as the
/// exports pass reads and changes them.
pub type ApiState = Seq<(SpecScope, Seq<SpecItemNode>)>;

/// The context for filling in the exports of the items of node `node`.
pub open spec fn api_ctx(s: Seq<SpecModNode>, node: int, is_entry: bool) -> FillCtx {
    FillCtx { shape: s, node, is_pkg: s[node].name == pkg_name(), filling_pub_api: true, is_entry }
}

/// The exports of items filled into `sc` in order, from state `st`: a
/// `pub use` whose file's exports are still empty has them filled in first
/// (see `api_fill_item`). Gives the state, the exports, the items as
/// rewritten up to the first error (that item and those after it left
/// out), and that error, if any.
pub open spec fn api_fill_items(st: ApiState, ctx: FillCtx, fuel: nat, sc: SpecScope, items: Seq<SpecItemNode>) -> (
    ApiState,
    SpecScope,
    Seq<SpecItemNode>,
    Option<SpecScopeError>,
)
    decreases fuel, items, 0nat,
{
    if items.len() == 0 {
        (st, sc, items, None)
    } else {
        let (st1, s1, done, e1) = api_fill_items(st, ctx, fuel, sc, items.drop_last());
        if e1 is Some {
            (st1, s1, done, e1)
        } else {
            let (st2, s2, it, e2) = api_fill_item(st1, ctx, fuel, s1, items[items.len() - 1]);
            if e2 is Some {
                (st2, s2, done, e2)
            } else {
                (st2, s2, done.push(it), None)
            }
        }
    }
}

/// One item filled into the exports `sc` (see `fill_item_spec`, of which
/// this is the exports case). A `pub use` whose file `f` exports nothing
/// yet first has `f`'s items filled in, from no exports, into `f`'s
/// exports, with one less `fuel`; with no fuel left it fails with
/// `UseCycle`. The use is then applied with `f`'s exports.
pub open spec fn api_fill_item(st: ApiState, ctx: FillCtx, fuel: nat, sc: SpecScope, item: SpecItemNode) -> (
    ApiState,
    SpecScope,
    SpecItemNode,
    Option<SpecScopeError>,
)
    decreases fuel, item, 1nat,
{
    match item.item {
        SpecItem::Use(u) => match use_check(ctx, u) {
            Some(e) => (st, sc, item, Some(e)),
            None => if u.public is None {
                (st, sc, item, None)
            } else {
                match dependency_of(ctx.shape, ctx.node, u) {
                    Err(e) => (st, sc, item, Some(e)),
                    Ok(d) => match dependency_file_of(ctx.shape, d as int, dependency_token(u)) {
                        Err(e) => (st, sc, item, Some(e)),
                        Ok(f) => {
                            let (st2, ne) = if st[f as int].0.len() == 0 {
                                if fuel == 0 {
                                    (st, Some(SpecScopeError::UseCycle(dependency_token(u))))
                                } else {
                                    let (st1, api, its, e) = api_fill_items(
                                        st.update(f as int, (Seq::empty(), Seq::empty())),
                                        api_ctx(ctx.shape, d as int, false),
                                        (fuel - 1) as nat,
                                        Seq::empty(),
                                        st[f as int].1,
                                    );
                                    (st1.update(f as int, (api, its)), e)
                                }
                            } else {
                                (st, None)
                            };
                            match ne {
                                Some(e) => (st2, sc, item, Some(e)),
                                None => {
                                    let (s1, u1, e) = apply_use_spec(sc, u, ctx.shape[d as int].name, st2[f as int].0);
                                    (st2, s1, SpecItemNode { item: SpecItem::Use(u1), ..item }, e)
                                },
                            }
                        },
                    },
                }
            },
        },
        SpecItem::FnDef(f) => if f.pub_token is None {
            (st, sc, item, None)
        } else {
            match fn_check(ctx, f) {
                Some(e) => (st, sc, item, Some(e)),
                None => {
                    let s1 = scope_insert(sc, f.name.literal, fn_entry(f));
                    let (st2, fs, body, e) = match f.body {
                        SpecFnDefBody::Block { items, close_semicolon, span } => {
                            let (st2, fs, its, e) = api_fill_items(st, body_ctx(ctx), fuel, f.scope, items);
                            (st2, fs, SpecFnDefBody::Block { items: its, close_semicolon, span }, e)
                        },
                        SpecFnDefBody::Stmt { fat_arrow, stmt, span } => {
                            let (st2, fs, it, e) = api_fill_item(st, body_ctx(ctx), fuel, f.scope, *stmt);
                            (st2, fs, SpecFnDefBody::Stmt { fat_arrow, stmt: Box::new(it), span }, e)
                        },
                    };
                    (st2, s1, SpecItemNode { item: SpecItem::FnDef(SpecFnDefNode { scope: fs, body, ..f }), ..item }, e)
                },
            }
        },
        SpecItem::Statement(_) => (st, sc, item, None),
    }
}

/// Where filling in the exports of the first `i` items fails, filling in
/// those of all fails the same way.
pub proof fn lemma_api_err_sticks(st: ApiState, ctx: FillCtx, fuel: nat, sc: SpecScope, items: Seq<SpecItemNode>, i: int)
    requires
        0 <= i <= items.len(),
        api_fill_items(st, ctx, fuel, sc, items.take(i)).3 is Some,
    ensures
        api_fill_items(st, ctx, fuel, sc, items) == api_fill_items(st, ctx, fuel, sc, items.take(i)),
    decreases items.len() - i,
{
    if i < items.len() {
        assert(items.take(i + 1).drop_last() =~= items.take(i));
        lemma_api_err_sticks(st, ctx, fuel, sc, items, i + 1);
    } else {
        assert(items.take(i) =~= items);
    }
}

/// The nodes node `k` links to: the nodes of a directory, then its
/// siblings.
pub open spec fn link_targets_of(s: Seq<SpecModNode>, k: int) -> Seq<usize> {
    s[k].children.map_values(|l: (Seq<char>, usize)| l.1) + s[k].siblings.map_values(|l: (Seq<char>, usize)| l.1)
}

/// The nodes a depth-first walk from `node` visits for the first time, in
/// order, marks `v` standing for the nodes visited before; and the marks
/// after it. `fuel` bounds the depth.
pub open spec fn dfs(s: Seq<SpecModNode>, v: Seq<bool>, node: int, fuel: nat) -> (Seq<int>, Seq<bool>)
    decreases fuel, 0nat, 0nat,
{
    if fuel == 0 || v[node] {
        (Seq::empty(), v)
    } else {
        let (o, v2) = dfs_list(s, v.update(node, true), link_targets_of(s, node), 0, (fuel - 1) as nat);
        (seq![node] + o, v2)
    }
}

/// The walks from the targets `ts`, from the `i`-th on, one after another.
pub open spec fn dfs_list(s: Seq<SpecModNode>, v: Seq<bool>, ts: Seq<usize>, i: nat, fuel: nat) -> (Seq<int>, Seq<bool>)
    decreases fuel, 1nat, ts.len() - i,
{
    if i >= ts.len() {
        (Seq::empty(), v)
    } else {
        let (o1, v1) = dfs(s, v, ts[i as int] as int, fuel);
        let (o2, v2) = dfs_list(s, v1, ts, i + 1, fuel);
        (o1 + o2, v2)
    }
}

/// The exports of node `k` filled in, where it is a file whose exports are
/// empty (see `api_fill_items`).
pub open spec fn api_file_step(s: Seq<SpecModNode>, st: ApiState, k: int, is_entry: bool, fuel: nat) -> (
    ApiState,
    Option<SpecScopeError>,
) {
    if !s[k].is_dir && st[k].0.len() == 0 {
        let (st1, api, its, e) = api_fill_items(
            st.update(k, (Seq::empty(), Seq::empty())),
            api_ctx(s, k, is_entry),
            fuel,
            Seq::empty(),
            st[k].1,
        );
        (st1.update(k, (api, its)), e)
    } else {
        (st, None)
    }
}

/// The exports of the nodes `order` filled in one after another, node
/// `root` as the entry file where `is_entry`, up to the first error.
pub open spec fn api_fold(s: Seq<SpecModNode>, st: ApiState, order: Seq<int>, root: int, is_entry: bool, fuel: nat) -> (
    ApiState,
    Option<SpecScopeError>,
)
    decreases order.len(),
{
    if order.len() == 0 {
        (st, None)
    } else {
        let (st1, e) = api_file_step(s, st, order[0], is_entry && order[0] == root, fuel);
        if e is Some {
            (st1, e)
        } else {
            api_fold(s, st1, order.drop_first(), root, is_entry, fuel)
        }
    }
}

/// Filling in along `a` then `b` is filling in along `a + b`.
pub proof fn lemma_api_fold_append(s: Seq<SpecModNode>, st: ApiState, a: Seq<int>, b: Seq<int>, root: int, is_entry: bool, fuel: nat)
    ensures
        api_fold(s, st, a + b, root, is_entry, fuel) == ({
            let (st1, e) = api_fold(s, st, a, root, is_entry, fuel);
            if e is Some {
                (st1, e)
            } else {
                api_fold(s, st1, b, root, is_entry, fuel)
            }
        }),
    decreases a.len(),
{
    if a.len() == 0 {
        assert(a + b =~= b);
    } else {
        assert((a + b).drop_first() =~= a.drop_first() + b);
        let (st1, e) = api_file_step(s, st, a[0], is_entry && a[0] == root, fuel);
        lemma_api_fold_append(s, st1, a.drop_first(), b, root, is_entry, fuel);
    }
}

/// Where no node of `order` is either entry node, which one is named
/// makes no difference.
pub proof fn lemma_api_fold_entry(s: Seq<SpecModNode>, st: ApiState, order: Seq<int>, r1: int, e1: bool, r2: int, e2: bool, fuel: nat)
    requires
        forall|i: int| 0 <= i < order.len() ==> !(e1 && #[trigger] order[i] == r1) && !(e2 && order[i] == r2),
    ensures
        api_fold(s, st, order, r1, e1, fuel) == api_fold(s, st, order, r2, e2, fuel),
    decreases order.len(),
{
    if order.len() > 0 {
        assert(order[0] == order[0]);
        let (st1, e) = api_file_step(s, st, order[0], false, fuel);
        assert forall|i: int| 0 <= i < order.drop_first().len() implies !(e1 && #[trigger] order.drop_first()[i] == r1) && !(e2
            && order.drop_first()[i] == r2) by {
            assert(order.drop_first()[i] == order[i + 1]);
        }
        lemma_api_fold_entry(s, st1, order.drop_first(), r1, e1, r2, e2, fuel);
    }
}

/// A walk visits only nodes not visited before, and visits more.
pub proof fn lemma_dfs_fresh(s: Seq<SpecModNode>, v: Seq<bool>, node: int, fuel: nat)
    requires
        0 <= node < v.len(),
        forall|k: int| 0 <= k < s.len() ==> forall|j: int| 0 <= j < #[trigger] link_targets_of(s, k).len() ==> link_targets_of(s, k)[j] < v.len(),
        v.len() == s.len(),
    ensures
        forall|i: int|
            0 <= i < dfs(s, v, node, fuel).0.len() ==> 0 <= #[trigger] dfs(s, v, node, fuel).0[i] < v.len() && !v[dfs(
                s,
                v,
                node,
                fuel,
            ).0[i]],
        dfs(s, v, node, fuel).1.len() == v.len(),
        forall|k: int| 0 <= k < v.len() && v[k] ==> #[trigger] dfs(s, v, node, fuel).1[k],
    decreases fuel, 0nat, 0nat,
{
    if !(fuel == 0 || v[node]) {
        let v1 = v.update(node, true);
        assert(link_targets_of(s, node).len() == link_targets_of(s, node).len());
        lemma_dfs_list_fresh(s, v1, link_targets_of(s, node), 0, (fuel - 1) as nat);
        let (o, v2) = dfs_list(s, v1, link_targets_of(s, node), 0, (fuel - 1) as nat);
        assert forall|i: int| 0 <= i < (seq![node] + o).len() implies 0 <= #[trigger] (seq![node] + o)[i] < v.len() && !v[(seq![node] + o)[i]] by {
            if i == 0 {
                assert((seq![node] + o)[0] == node);
            } else {
                assert((seq![node] + o)[i] == o[i - 1]);
                assert(!v1[o[i - 1]]);
            }
        }
    }
}

/// See `lemma_dfs_fresh`.
pub proof fn lemma_dfs_list_fresh(s: Seq<SpecModNode>, v: Seq<bool>, ts: Seq<usize>, i: nat, fuel: nat)
    requires
        forall|j: int| 0 <= j < ts.len() ==> ts[j] < v.len(),
        forall|k: int| 0 <= k < s.len() ==> forall|j: int| 0 <= j < #[trigger] link_targets_of(s, k).len() ==> link_targets_of(s, k)[j] < v.len(),
        v.len() == s.len(),
    ensures
        forall|q: int|
            0 <= q < dfs_list(s, v, ts, i, fuel).0.len() ==> 0 <= #[trigger] dfs_list(s, v, ts, i, fuel).0[q] < v.len()
                && !v[dfs_list(s, v, ts, i, fuel).0[q]],
        dfs_list(s, v, ts, i, fuel).1.len() == v.len(),
        forall|k: int| 0 <= k < v.len() && v[k] ==> #[trigger] dfs_list(s, v, ts, i, fuel).1[k],
    decreases fuel, 1nat, ts.len() - i,
{
    if i < ts.len() {
        lemma_dfs_fresh(s, v, ts[i as int] as int, fuel);
        let (o1, v1) = dfs(s, v, ts[i as int] as int, fuel);
        lemma_dfs_list_fresh(s, v1, ts, i + 1, fuel);
        let (o2, v2) = dfs_list(s, v1, ts, i + 1, fuel);
        assert forall|q: int| 0 <= q < (o1 + o2).len() implies 0 <= #[trigger] (o1 + o2)[q] < v.len() && !v[(o1 + o2)[q]] by {
            if q < o1.len() {
                assert((o1 + o2)[q] == o1[q]);
            } else {
                assert((o1 + o2)[q] == o2[q - o1.len()]);
                assert(!v1[o2[q - o1.len()]]);
                if v[o2[q - o1.len()]] {
                    assert(v1[o2[q - o1.len()]]);
                }
            }
        }
    }
}

} // verus!

//! Filling in the scopes of a project: for each file, the names it exports
//! (its public API) and the names it can refer to (its scope), from its
//! `use` items and function definitions.
use vstd::prelude::*;

use crate::lexer::token::Token;
use crate::parser::ast::{
    DestructInitUsePattern, FnDefBlockNode, FnDefBody, FnDefNode, FnDefStmtNode, InitUsePattern,
    Item, ItemNode, PatternPrefix, Type, UseNode, UsePattern, UsePatternNode,
};
use crate::parser::copy::{copy_type, param_values};
use crate::parser::uses::lemma_destruct_push;
use crate::parser::view::{
    destruct_node_view, destruct_punct_view, fn_def_view, item_node_view, items_view, opt_tok,
    scope_ref_node_view, scope_table_view, use_node_view, SpecItemNode, SpecPunct,
};
use crate::punctuated::Punctuated;
use crate::scope::copy::copy_scope_table;
use crate::scope::fill_spec::{
    apply_use_spec, dependency_file_of, dependency_of, dependency_token, drop_selves_from,
    fill_item_spec, fill_items_from, fill_items_spec,
    api_ctx, api_file_step, api_fill_item, api_fill_items, api_fold, dfs, dfs_list, lemma_api_err_sticks,
    lemma_api_fold_append, lemma_api_fold_entry, lemma_dfs_fresh, link_targets_of, ApiState,
    lemma_fill_err_sticks, lemma_used_apis_len,
    used_apis_of_item, used_apis_of_items, fn_check, fn_entry, main_name, named_from, pkg_name,
    self_mods_from, spunct_delim_after, use_check, FillCtx, UsedApis,
};
use crate::scope::resolve::{
    is_self_pattern, resolve_use_pattern, scope_err_view, ScopeError, SpecScopeError,
};
use crate::scope::{ScopeRef, ScopeRefNode, ScopeTable};
use crate::parser::ast::FerrumFileAst;
use crate::scope::spec::SpecScope;
use crate::tree::{
    find_link, links_in, node_shape, shape_wf, top_ancestor, tree_shape, FerrumModNode,
    FerrumModNodeFile, ModTree, SpecModNode,
};

verus! {

/// The view of a lookup result.
pub open spec fn dep_result_view(r: Result<usize, ScopeError>) -> Result<usize, SpecScopeError> {
    match r {
        Ok(d) => Ok(d),
        Err(e) => Err(scope_err_view(e)),
    }
}

/// The topmost directory above node `n`, or `n` itself.
fn exec_top_ancestor(tree: &ModTree, n: usize) -> (r: usize)
    requires
        tree.wf(),
        n < tree.nodes@.len(),
    ensures
        r == top_ancestor(tree.shape(), n as int),
        r < tree.nodes@.len(),
{
    let ghost s = tree.shape();
    let mut r = n;
    loop
        invariant
            tree.wf(),
            s == tree.shape(),
            r < tree.nodes@.len(),
            top_ancestor(s, n as int) == top_ancestor(s, r as int),
        decreases r,
    {
        assert(s[r as int] == crate::tree::node_shape(tree.nodes@[r as int]));
        match tree.nodes[r].parent_ref {
            Some(p) => {
                r = p;
            },
            None => {
                return r;
            },
        }
    }
}

/// The node named by `t` as seen from node `r` (see `named_from`).
fn exec_named_from(tree: &ModTree, r: usize, t: &Token) -> (d: Result<usize, ScopeError>)
    requires
        tree.wf(),
        r < tree.nodes@.len(),
    ensures
        dep_result_view(d) == named_from(tree.shape(), r as int, t@),
        d matches Ok(i) ==> i < tree.nodes@.len(),
{
    let ghost s = tree.shape();
    assert(s[r as int] == crate::tree::node_shape(tree.nodes@[r as int]));
    if tree.nodes[r].name == t.literal {
        Ok(r)
    } else {
        match find_link(&tree.nodes[r].sibling_refs, &t.literal) {
            Some(d) => {
                proof {
                    crate::tree::lemma_link_index(s[r as int].siblings, t@.literal);
                }
                Ok(d)
            },
            None => Err(ScopeError::DependencyNotFound(t.duplicate())),
        }
    }
}

/// The token a `use` names its dependency by.
fn exec_dependency_token(u: &UseNode) -> (t: &Token)
    ensures
        t@ == dependency_token(use_node_view(*u)),
{
    match &u.use_pattern.use_pattern {
        InitUsePattern::Id(t) => t,
        InitUsePattern::Path(p) => &p.parent_name,
    }
}

/// The node a `use` in node `n` depends on (see `dependency_of`).
pub fn find_dependency(tree: &ModTree, n: usize, u: &UseNode) -> (d: Result<usize, ScopeError>)
    requires
        tree.wf(),
        n < tree.nodes@.len(),
    ensures
        dep_result_view(d) == dependency_of(tree.shape(), n as int, use_node_view(*u)),
        d matches Ok(i) ==> i < tree.nodes@.len(),
{
    let ghost s = tree.shape();
    assert(s[n as int] == crate::tree::node_shape(tree.nodes@[n as int]));
    let t = exec_dependency_token(u);
    if t.literal == tree.nodes[n].name {
        return Err(ScopeError::CannotUseSelf(tree.nodes[n].path.clone(), t.duplicate()));
    }
    match &u.pattern_prefix {
        Some(PatternPrefix::Root(_)) => {
            let r = exec_top_ancestor(tree, n);
            exec_named_from(tree, r, t)
        },
        Some(PatternPrefix::Rel(rel)) => {
            if rel.parent_dirs.len() == 0 {
                exec_named_from(tree, n, t)
            } else {
                match tree.nodes[n].parent_ref {
                    Some(p) => exec_named_from(tree, p, t),
                    None => Err(ScopeError::NoParentDir(t.duplicate())),
                }
            }
        },
        None => match find_link(&tree.nodes[n].sibling_refs, &t.literal) {
            Some(d) => {
                proof {
                    crate::tree::lemma_link_index(s[n as int].siblings, t@.literal);
                }
                Ok(d)
            },
            None => Err(ScopeError::DependencyNotFound(t.duplicate())),
        },
    }
}

/// The file node whose exports dependency `d` offers (see
/// `dependency_file_of`).
pub fn find_dependency_file(tree: &ModTree, d: usize, t: &Token) -> (f: Result<usize, ScopeError>)
    requires
        tree.wf(),
        d < tree.nodes@.len(),
    ensures
        dep_result_view(f) == dependency_file_of(tree.shape(), d as int, t@),
        f matches Ok(i) ==> i < tree.nodes@.len() && !tree.shape()[i as int].is_dir,
{
    let ghost s = tree.shape();
    assert(s[d as int] == crate::tree::node_shape(tree.nodes@[d as int]));
    match &tree.nodes[d].file {
        FerrumModNodeFile::File(_) => Ok(d),
        FerrumModNodeFile::Dir(children) => {
            let pkg = String::from_str("_pkg");
            proof {
                reveal_strlit("_pkg");
                assert(pkg@ == pkg_name());
            }
            match find_link(children, &pkg) {
                Some(c) => {
                    proof {
                        crate::tree::lemma_link_index(s[d as int].children, pkg_name());
                    }
                    assert(s[c as int] == crate::tree::node_shape(tree.nodes@[c as int]));
                    match &tree.nodes[c].file {
                        FerrumModNodeFile::File(_) => Ok(c),
                        FerrumModNodeFile::Dir(_) => Err(ScopeError::PkgNotFile(t.duplicate())),
                    }
                },
                None => Err(ScopeError::PkgMissing(t.duplicate())),
            }
        },
    }
}

/// The view of an optional check error.
pub open spec fn check_view(r: Option<ScopeError>) -> Option<SpecScopeError> {
    match r {
        Some(e) => Some(scope_err_view(e)),
        None => None,
    }
}

/// The checks on a `use` before its dependency is looked up (see
/// `use_check`).
fn exec_use_check(is_entry: bool, is_pkg: bool, u: &UseNode) -> (r: Option<ScopeError>)
    ensures
        check_view(r) == use_check(
            FillCtx { shape: arbitrary(), node: arbitrary(), is_pkg, filling_pub_api: arbitrary(), is_entry },
            use_node_view(*u),
        ),
{
    match &u.public {
        Some(p) => if is_entry {
            Some(ScopeError::EntryExportsNonMain(p.duplicate()))
        } else if !is_pkg {
            Some(ScopeError::PubUseOutsidePkg(p.duplicate()))
        } else if u.pattern_prefix.is_some() {
            Some(ScopeError::PubUseWithPrefix(p.duplicate()))
        } else {
            None
        },
        None => None,
    }
}

/// The checks on a function of the entry file (see `fn_check`).
fn exec_fn_check(is_entry: bool, f: &FnDefNode) -> (r: Option<ScopeError>)
    ensures
        check_view(r) == fn_check(
            FillCtx { shape: arbitrary(), node: arbitrary(), is_pkg: arbitrary(), filling_pub_api: arbitrary(), is_entry },
            fn_def_view(*f),
        ),
{
    let main = String::from_str("main");
    proof {
        reveal_strlit("main");
        assert(main@ == main_name());
    }
    if is_entry && f.name.literal == main {
        if f.pub_token.is_none() {
            Some(ScopeError::MainNotPublic(f.name.duplicate()))
        } else {
            match &f.return_type {
                Some((_, t)) => match &t.typ {
                    Type::Result(None) => None,
                    _ => Some(ScopeError::InvalidMainReturnType(f.name.duplicate())),
                },
                None => None,
            }
        }
    } else if is_entry && f.pub_token.is_some() {
        Some(ScopeError::EntryExportsNonMain(f.name.duplicate()))
    } else {
        None
    }
}

/// The scope entry of a function (see `fn_entry`).
fn exec_fn_entry(f: &FnDefNode) -> (n: ScopeRefNode)
    ensures
        scope_ref_node_view(n) == fn_entry(fn_def_view(*f)),
{
    let return_type = match &f.return_type {
        Some((_, t)) => Some(copy_type(&t.typ)),
        None => None,
    };
    ScopeRefNode {
        name: f.name.literal.clone(),
        is_public: f.pub_token.is_some(),
        scope_ref: ScopeRef::Fn { name: f.name.literal.clone(), params: param_values(&f.params), return_type },
    }
}

/// The values and commas of a `{ ... }` list and of its view correspond.
proof fn lemma_destruct_punct_view(ps: Punctuated<Box<UsePatternNode<DestructInitUsePattern>>, Token>)
    ensures
        destruct_punct_view(ps).values().len() == ps.values().len(),
        forall|i: int|
            0 <= i < ps.values().len() ==> destruct_punct_view(ps).values()[i] == destruct_node_view(
                *ps.values()[i],
            ) && spunct_delim_after(destruct_punct_view(ps), i as nat) == opt_tok(ps.delim_after(i)),
{
}

/// The `{ ... }` patterns without the `self`s, each kept pattern with the
/// comma that followed it, and no trailing comma.
fn drop_self_patterns(ps: Punctuated<Box<UsePatternNode<DestructInitUsePattern>>, Token>) -> (r: Punctuated<
    Box<UsePatternNode<DestructInitUsePattern>>,
    Token,
>)
    ensures
        destruct_punct_view(r) == drop_selves_from(SpecPunct::Empty, None, destruct_punct_view(ps), 0),
{
    let ghost pv = destruct_punct_view(ps);
    let ghost whole = ps;
    proof {
        lemma_destruct_punct_view(ps);
    }
    let pairs = ps.take_as_vec();
    let ghost pairs_seq = pairs@;
    let mut acc: Punctuated<Box<UsePatternNode<DestructInitUsePattern>>, Token> = Punctuated::new();
    let mut prev: Option<Token> = None;
    assert(destruct_punct_view(acc) == SpecPunct::<crate::parser::view::SpecDestructUsePatternNode>::Empty);
    for pair in it: pairs
        invariant
            it.seq() == pairs_seq,
            pairs_seq == whole.spec_as_pairs(),
            pv == destruct_punct_view(whole),
            pv.values().len() == whole.values().len(),
            forall|i: int|
                0 <= i < whole.values().len() ==> pv.values()[i] == destruct_node_view(*whole.values()[i])
                    && spunct_delim_after(pv, i as nat) == opt_tok(whole.delim_after(i)),
            drop_selves_from(SpecPunct::Empty, None, pv, 0) == drop_selves_from(
                destruct_punct_view(acc),
                opt_tok(prev),
                pv,
                it.index() as nat,
            ),
            prev is Some ==> acc is NonEmpty,
            (prev is None && acc is NonEmpty) ==> it.index() == pairs_seq.len(),
    {
        let ghost i = it.index();
        let (v, d) = pair;
        assert(v == whole.values()[i as int] && d == whole.delim_after(i as int));
        if !exec_is_self_pattern(&v) {
            let ghost old_acc = acc;
            let ghost v_g = v;
            let ghost prev_g = prev;
            acc.push(prev, v);
            proof {
                lemma_destruct_push(old_acc, acc, prev_g, v_g);
            }
            proof {
                match whole {
                    Punctuated::NonEmpty { rest, .. } => {
                        if d is None {
                            assert(i >= rest@.len());
                        }
                    },
                    Punctuated::Empty => {},
                }
            }
            prev = d;
        }
    }
    acc
}

/// Whether a pattern inside `{ ... }` is `self`.
fn exec_is_self_pattern(n: &UsePatternNode<DestructInitUsePattern>) -> (b: bool)
    ensures
        b == is_self_pattern(destruct_node_view(*n)),
{
    match &n.use_pattern {
        DestructInitUsePattern::Self_(_) => true,
        _ => false,
    }
}

/// For each `self` among the `{ ... }` patterns, `k` brought into `scope`
/// as the module `dep_name` with exports `api`.
fn self_mods(
    scope: &mut ScopeTable,
    ps: &Punctuated<Box<UsePatternNode<DestructInitUsePattern>>, Token>,
    k: &String,
    dep_name: &String,
    api: &ScopeTable,
    is_public: bool,
)
    ensures
        scope_table_view(*final(scope)) == self_mods_from(
            scope_table_view(*old(scope)),
            destruct_punct_view(*ps),
            0,
            k@,
            dep_name@,
            scope_table_view(*api),
            is_public,
        ),
{
    let ghost pv = destruct_punct_view(*ps);
    let ghost av = scope_table_view(*api);
    let ghost d0 = scope_table_view(*scope);
    match ps {
        Punctuated::Empty => {},
        Punctuated::NonEmpty { first, rest, .. } => {
            assert(pv.values()[0] == destruct_node_view(**first));
            if exec_is_self_pattern(first) {
                scope.insert(
                    k.clone(),
                    ScopeRefNode { name: dep_name.clone(), is_public, scope_ref: ScopeRef::Mod(copy_scope_table(api)) },
                );
            }
            let mut j: usize = 0;
            while j < rest.len()
                invariant
                    j <= rest@.len(),
                    pv == destruct_punct_view(*ps),
                    av == scope_table_view(*api),
                    *ps is NonEmpty,
                    (*ps)->rest == *rest,
                    pv.values().len() == rest@.len() + 1,
                    self_mods_from(d0, pv, 0, k@, dep_name@, av, is_public) == self_mods_from(
                        scope_table_view(*scope),
                        pv,
                        (j + 1) as nat,
                        k@,
                        dep_name@,
                        av,
                        is_public,
                    ),
                decreases rest@.len() - j,
            {
                assert(pv.values()[j + 1] == destruct_node_view(*rest@[j as int].1));
                if exec_is_self_pattern(&rest[j].1) {
                    scope.insert(
                        k.clone(),
                        ScopeRefNode {
                            name: dep_name.clone(),
                            is_public,
                            scope_ref: ScopeRef::Mod(copy_scope_table(api)),
                        },
                    );
                }
                j = j + 1;
            }
        },
    }
}

/// The view of a fill result.
pub open spec fn result_view(r: Result<(), ScopeError>) -> Option<SpecScopeError> {
    match r {
        Ok(()) => None,
        Err(e) => Some(scope_err_view(e)),
    }
}

/// A `use` whose dependency `dep_name` exports `api`, applied to `scope`
/// (see `apply_use_spec`); gives the `use` as rewritten.
fn apply_use(scope: &mut ScopeTable, u: UseNode, dep_name: &String, api: &ScopeTable) -> (r: (
    UseNode,
    Result<(), ScopeError>,
))
    ensures
        ({
            let (s1, u1, e) = apply_use_spec(
                scope_table_view(*old(scope)),
                use_node_view(u),
                dep_name@,
                scope_table_view(*api),
            );
            &&& scope_table_view(*final(scope)) == s1
            &&& use_node_view(r.0) == u1
            &&& result_view(r.1) == e
        }),
{
    let is_public = u.public.is_some();
    let UseNode { public, use_token, pattern_prefix, use_pattern, span } = u;
    let UsePatternNode { use_pattern: init, span: pattern_span } = use_pattern;
    match init {
        InitUsePattern::Id(t) => {
            scope.insert(
                t.literal.clone(),
                ScopeRefNode { name: dep_name.clone(), is_public, scope_ref: ScopeRef::Mod(copy_scope_table(api)) },
            );
            let u2 = UseNode {
                public,
                use_token,
                pattern_prefix,
                use_pattern: UsePatternNode { use_pattern: InitUsePattern::Id(t), span: pattern_span },
                span,
            };
            (u2, Ok(()))
        },
        InitUsePattern::Path(path) => {
            let crate::parser::ast::UsePatternPath { parent_name, delim, rhs } = path;
            let UsePatternNode { use_pattern: rp, span: rhs_span } = *rhs;
            let new_rp = match rp {
                UsePattern::Destruct(d) => {
                    self_mods(scope, &d.patterns, &parent_name.literal, dep_name, api, is_public);
                    let crate::parser::ast::UsePatternDestruct { open_brace, patterns, close_brace } = d;
                    UsePattern::Destruct(
                        crate::parser::ast::UsePatternDestruct {
                            open_brace,
                            patterns: drop_self_patterns(patterns),
                            close_brace,
                        },
                    )
                },
                other => other,
            };
            let new_rhs = UsePatternNode { use_pattern: new_rp, span: rhs_span };
            let r = resolve_use_pattern(scope, api, &new_rhs, is_public);
            let u2 = UseNode {
                public,
                use_token,
                pattern_prefix,
                use_pattern: UsePatternNode {
                    use_pattern: InitUsePattern::Path(
                        crate::parser::ast::UsePatternPath { parent_name, delim, rhs: Box::new(new_rhs) },
                    ),
                    span: pattern_span,
                },
                span,
            };
            (u2, r)
        },
    }
}

/// The exports (`api`) or the scope of a node: those of its file, none
/// for a directory.
pub open spec fn node_table(n: FerrumModNode, api: bool) -> SpecScope {
    match n.file {
        FerrumModNodeFile::File(f) => scope_table_view(
            if api {
                f.pub_api
            } else {
                f.scope
            },
        ),
        FerrumModNodeFile::Dir(_) => Seq::empty(),
    }
}

/// The exports (`api`) or the scopes of all the nodes.
pub open spec fn tables_of(tree: ModTree, api: bool) -> Seq<SpecScope> {
    tree.nodes@.map_values(|n: FerrumModNode| node_table(n, api))
}

/// The items of a node's file; none for a directory.
pub open spec fn node_items(n: FerrumModNode) -> Seq<SpecItemNode> {
    match n.file {
        FerrumModNodeFile::File(f) => items_view(f.items@),
        FerrumModNodeFile::Dir(_) => Seq::empty(),
    }
}

/// The exports and the items of every node.
pub open spec fn api_state(tree: ModTree) -> ApiState {
    tree.nodes@.map_values(|n: FerrumModNode| (node_table(n, true), node_items(n)))
}

/// What every node exports.
pub open spec fn exports_of(tree: ModTree) -> Seq<SpecScope> {
    tables_of(tree, true)
}

/// Node `n` with the exports (`api`) or the scope of its file replaced by
/// `t` and its items by `items`; a directory stays as it is.
pub open spec fn with_parts(n: FerrumModNode, api: bool, t: ScopeTable, items: Vec<ItemNode>) -> FerrumModNode {
    match n.file {
        FerrumModNodeFile::File(f) => FerrumModNode {
            file: FerrumModNodeFile::File(
                if api {
                    FerrumFileAst { pub_api: t, items, ..f }
                } else {
                    FerrumFileAst { scope: t, items, ..f }
                },
            ),
            ..n
        },
        FerrumModNodeFile::Dir(_) => n,
    }
}

/// Whether node `b` is node `a` with at most the exports (`api`) or the
/// scope of its file and its items replaced.
pub open spec fn same_but_parts(a: FerrumModNode, b: FerrumModNode, api: bool) -> bool {
    match b.file {
        FerrumModNodeFile::File(g) => b == with_parts(
            a,
            api,
            if api {
                g.pub_api
            } else {
                g.scope
            },
            g.items,
        ) && a.file is File,
        FerrumModNodeFile::Dir(_) => b == a,
    }
}

/// Changing one node but its exports (`!b`) or its scope (`b`) keeps
/// those of all.
proof fn lemma_tables_update(t: ModTree, u: ModTree, id: int, b: bool)
    requires
        0 <= id < t.nodes@.len(),
        u.nodes@ == t.nodes@.update(id, u.nodes@[id]),
        node_table(u.nodes@[id], b) == node_table(t.nodes@[id], b),
    ensures
        tables_of(u, b) == tables_of(t, b),
{
    assert(tables_of(u, b) =~= tables_of(t, b));
}

/// Takes out of file node `id` its items and its exports (`api`) or its
/// scope, leaving them empty; the shape of the tree stays as it is.
fn take_file_parts(tree: &mut ModTree, id: usize, api: bool) -> (r: (ScopeTable, Vec<ItemNode>))
    requires
        old(tree).wf(),
        id < old(tree).nodes@.len(),
    ensures
        final(tree).wf(),
        final(tree).shape() == old(tree).shape(),
        final(tree).root == old(tree).root,
        final(tree).nodes@.len() == old(tree).nodes@.len(),
        final(tree).nodes@ == old(tree).nodes@.update(id as int, final(tree).nodes@[id as int]),
        same_but_parts(old(tree).nodes@[id as int], final(tree).nodes@[id as int], api),
        node_table(final(tree).nodes@[id as int], api).len() == 0,
        node_items(final(tree).nodes@[id as int]).len() == 0,
        old(tree).nodes@[id as int].file matches FerrumModNodeFile::File(f) ==> r == (
            if api {
                f.pub_api
            } else {
                f.scope
            },
            f.items,
        ),
{
    let ghost old_nodes = tree.nodes@;
    let mut n = tree.nodes.remove(id);
    let ghost n0 = n;
    let mut table = ScopeTable::new();
    let mut items: Vec<ItemNode> = Vec::new();
    match &mut n.file {
        FerrumModNodeFile::File(f) => {
            if api {
                std::mem::swap(&mut f.pub_api, &mut table);
            } else {
                std::mem::swap(&mut f.scope, &mut table);
            }
            std::mem::swap(&mut f.items, &mut items);
        },
        FerrumModNodeFile::Dir(_) => {},
    }
    assert(node_shape(n) == node_shape(n0));
    tree.nodes.insert(id, n);
    assert(tree.nodes@ =~= old_nodes.update(id as int, n));
    assert(tree.shape() =~= tree_shape(old_nodes));
    (table, items)
}

/// Puts items and exports (`api`) or a scope back into file node `id`; the
/// shape of the tree stays as it is.
fn put_file_parts(tree: &mut ModTree, id: usize, api: bool, table: ScopeTable, items: Vec<ItemNode>)
    requires
        old(tree).wf(),
        id < old(tree).nodes@.len(),
    ensures
        final(tree).wf(),
        final(tree).shape() == old(tree).shape(),
        final(tree).root == old(tree).root,
        final(tree).nodes@.len() == old(tree).nodes@.len(),
        final(tree).nodes@ == old(tree).nodes@.update(id as int, with_parts(old(tree).nodes@[id as int], api, table, items)),
{
    let ghost old_nodes = tree.nodes@;
    let mut n = tree.nodes.remove(id);
    let ghost n0 = n;
    let mut table = table;
    let mut items = items;
    match &mut n.file {
        FerrumModNodeFile::File(f) => {
            if api {
                std::mem::swap(&mut f.pub_api, &mut table);
            } else {
                std::mem::swap(&mut f.scope, &mut table);
            }
            std::mem::swap(&mut f.items, &mut items);
        },
        FerrumModNodeFile::Dir(_) => {},
    }
    assert(node_shape(n) == node_shape(n0));
    tree.nodes.insert(id, n);
    assert(tree.nodes@ =~= old_nodes.update(id as int, n));
    assert(tree.shape() =~= tree_shape(old_nodes));
}

/// Whether the exports of file node `id` are still empty.
fn api_is_empty(tree: &ModTree, id: usize) -> (b: bool)
    requires
        id < tree.nodes@.len(),
    ensures
        b == (tree.nodes@[id as int].file is File && node_table(tree.nodes@[id as int], true).len() == 0),
{
    match &tree.nodes[id].file {
        FerrumModNodeFile::File(f) => f.pub_api.is_empty(),
        FerrumModNodeFile::Dir(_) => false,
    }
}

/// The context of filling the items of node `node`.
pub open spec fn ctx_of(tree: ModTree, node: usize, filling_pub_api: bool, is_entry: bool) -> FillCtx {
    FillCtx {
        shape: tree.shape(),
        node: node as int,
        is_pkg: tree.shape()[node as int].name == pkg_name(),
        filling_pub_api,
        is_entry,
    }
}

/// The items of node `node` filled, in order, into `scope` (see
/// `fill_items_spec`); filling only its exports when `filling_pub_api`.
/// A `use` whose dependency's exports are still empty has them filled in
/// first (its items taken out while that is done); `fuel` bounds how deep
/// that goes, past which the `use` fails with `UseCycle`. Gives the items
/// as rewritten and, as a ghost value, the exports each `use` was resolved
/// against.
#[verifier::rlimit(60)]
fn fill_scope_with_items(
    tree: &mut ModTree,
    node: usize,
    scope: &mut ScopeTable,
    items: Vec<ItemNode>,
    filling_pub_api: bool,
    is_entry: bool,
    fuel: usize,
) -> (r: (Vec<ItemNode>, Result<(), ScopeError>, Ghost<Seq<UsedApis>>))
    requires
        old(tree).wf(),
        node < old(tree).nodes@.len(),
    ensures
        final(tree).wf(),
        final(tree).shape() == old(tree).shape(),
        final(tree).root == old(tree).root,
        r.1 is Ok ==> fill_items_spec(
            ctx_of(*old(tree), node, filling_pub_api, is_entry),
            scope_table_view(*old(scope)),
            items_view(items@),
            r.2@,
        ) == (scope_table_view(*final(scope)), items_view(r.0@), None::<SpecScopeError>),
        tables_of(*final(tree), false) == tables_of(*old(tree), false),
        !filling_pub_api ==> *final(tree) == *old(tree),
        !filling_pub_api && r.1 is Ok ==> r.2@ == used_apis_of_items(
            ctx_of(*old(tree), node, filling_pub_api, is_entry),
            items_view(items@),
            exports_of(*old(tree)),
        ),
        filling_pub_api ==> api_fill_items(
            api_state(*old(tree)),
            ctx_of(*old(tree), node, true, is_entry),
            fuel as nat,
            scope_table_view(*old(scope)),
            items_view(items@),
        ) == (api_state(*final(tree)), scope_table_view(*final(scope)), items_view(r.0@), result_view(r.1)),
        !filling_pub_api ==> (r.1 matches Err(e) ==> fill_items_from(
            ctx_of(*old(tree), node, filling_pub_api, is_entry),
            scope_table_view(*old(scope)),
            items_view(items@),
            exports_of(*old(tree)),
        ).2 == Some(scope_err_view(e))),
    decreases fuel, items, 0nat,
{
    let ghost ctx = ctx_of(*tree, node, filling_pub_api, is_entry);
    let ghost s0 = scope_table_view(*scope);
    let ghost iv = items_view(items@);
    let ghost items_seq = items@;
    let ghost st0 = api_state(*tree);
    let mut done: Vec<ItemNode> = Vec::new();
    let ghost mut apis: Seq<UsedApis> = Seq::empty();
    assert(iv.take(0) =~= Seq::<SpecItemNode>::empty());
    assert(items_view(done@) =~= Seq::<SpecItemNode>::empty());
    for item in it: items
        invariant
            it.seq() == items_seq,
            iv == items_view(items_seq),
            tree.wf(),
            tree.shape() == ctx.shape,
            ctx.shape == old(tree).shape(),
            tree.root == old(tree).root,
            tables_of(*tree, false) == tables_of(*old(tree), false),
            !filling_pub_api ==> *tree == *old(tree),
            !filling_pub_api ==> apis == used_apis_of_items(ctx, iv.take(it.index() as int), exports_of(*old(tree))),
            s0 == scope_table_view(*old(scope)),
            st0 == api_state(*old(tree)),
            filling_pub_api ==> api_fill_items(st0, ctx, fuel as nat, s0, iv.take(it.index() as int)) == (
                api_state(*tree),
                scope_table_view(*scope),
                items_view(done@),
                None::<SpecScopeError>,
            ),
            node < tree.nodes@.len(),
            ctx == ctx_of(*tree, node, filling_pub_api, is_entry),
            apis.len() == it.index(),
            fill_items_spec(ctx, s0, iv.take(it.index() as int), apis) == (
                scope_table_view(*scope),
                items_view(done@),
                None::<SpecScopeError>,
            ),
    {
        let ghost i = it.index();
        let ghost item_g = item;
        let ghost scope_before = scope_table_view(*scope);
        assert(item == items_seq[i as int]);
        assert(decreases_to!(items => items@[i as int])) by {
            assert(decreases_to!(items => items@));
        }
        let ghost tree_before = *tree;
        let (item2, res, a) = fill_item(tree, node, scope, item, filling_pub_api, is_entry, fuel);
        match res {
            Ok(()) => {},
            Err(e) => {
                proof {
                    let ex = exports_of(*old(tree));
                    if !filling_pub_api {
                        let t1 = iv.take(i + 1);
                        assert(t1.drop_last() =~= iv.take(i as int));
                        assert(t1[i as int] == item_node_view(item_g));
                        if !filling_pub_api {
                            assert(fill_items_from(ctx, s0, iv.take(i as int), ex) == (
                                scope_before,
                                items_view(done@),
                                None::<SpecScopeError>,
                            ));
                        }
                        lemma_used_apis_len(ctx, iv.take(i as int), ex);
                        assert(used_apis_of_items(ctx, t1, ex) == used_apis_of_items(ctx, t1.drop_last(), ex).push(
                            used_apis_of_item(ctx, t1[i as int], ex),
                        ));
                        assert(used_apis_of_items(ctx, t1, ex).take(i as int) =~= used_apis_of_items(ctx, iv.take(i as int), ex));
                        assert(fill_items_from(ctx, s0, t1, ex).2 == Some(scope_err_view(e)));
                        lemma_fill_err_sticks(ctx, s0, iv, ex, i + 1);
                        assert(iv.take(items_seq.len() as int) =~= iv);
                    }
                    if filling_pub_api {
                        let t1 = iv.take(i + 1);
                        assert(t1.drop_last() =~= iv.take(i as int));
                        assert(t1[i as int] == item_node_view(item_g));
                        assert(api_fill_items(st0, ctx, fuel as nat, s0, t1) == (
                            api_state(*tree),
                            scope_table_view(*scope),
                            items_view(done@),
                            Some(scope_err_view(e)),
                        ));
                        lemma_api_err_sticks(st0, ctx, fuel as nat, s0, iv, i + 1);
                        assert(iv.take(items_seq.len() as int) =~= iv);
                    }
                }
                return (done, Err(e), Ghost(apis));
            },
        }
        let ghost before = done@;
        done.push(item2);
        proof {
            let apis2 = apis.push(a@);
            let t1 = iv.take(i + 1);
            assert(i < items_seq.len());
            assert(t1.len() == i + 1);
            assert(t1.drop_last() =~= iv.take(i as int));
            assert(apis2.take(i as int) =~= apis);
            assert(t1[i as int] == item_node_view(item_g));
            assert(fill_items_spec(ctx, s0, t1.drop_last(), apis2.take(i as int)) == (
                scope_before,
                items_view(before),
                None::<SpecScopeError>,
            ));
            assert(fill_item_spec(ctx, scope_before, t1[i as int], apis2[i as int]) == (
                scope_table_view(*scope),
                item_node_view(item2),
                None::<SpecScopeError>,
            ));
            assert(items_view(done@) =~= items_view(before).push(item_node_view(item2)));
            let r1 = fill_items_spec(ctx, s0, t1.drop_last(), apis2.take(t1.len() - 1));
            let r2 = fill_item_spec(ctx, r1.0, t1[t1.len() - 1], apis2[t1.len() - 1]);
            assert(r1.2 is None);
            assert(fill_items_spec(ctx, s0, t1, apis2) == (r2.0, r1.1.push(r2.1), r2.2));
            assert(fill_items_spec(ctx, s0, t1, apis2) == (
                scope_table_view(*scope),
                items_view(done@),
                None::<SpecScopeError>,
            ));
            if !filling_pub_api {
                let ex = exports_of(*old(tree));
                assert(used_apis_of_items(ctx, t1, ex) == used_apis_of_items(ctx, t1.drop_last(), ex).push(
                    used_apis_of_item(ctx, t1[i as int], ex),
                ));
                assert(apis2 =~= used_apis_of_items(ctx, t1, ex));
            }
            if filling_pub_api {
                assert(api_fill_items(st0, ctx, fuel as nat, s0, t1) == (
                    api_state(*tree),
                    scope_table_view(*scope),
                    items_view(done@),
                    None::<SpecScopeError>,
                ));
            }
            apis = apis2;
        }
    }
    assert(iv.take(items_seq.len() as int) =~= iv);
    assert(iv.take(0) =~= Seq::<SpecItemNode>::empty());
    (done, Ok(()), Ghost(apis))
}

/// The exports of file `file_id`, the file node `dep` offers to a
/// `pub use`, filled in from its items where they are still empty (see
/// `api_fill_item`), with one less `fuel`; with no fuel left, `UseCycle`.
fn fill_dependency_exports(
    tree: &mut ModTree,
    dep: usize,
    file_id: usize,
    fuel: usize,
    u: &UseNode,
    Ghost(item): Ghost<ItemNode>,
) -> (r: Result<
    (),
    ScopeError,
>)
    requires
        old(tree).wf(),
        dep < old(tree).nodes@.len(),
        file_id < old(tree).nodes@.len(),
        !old(tree).shape()[file_id as int].is_dir,
    ensures
        final(tree).wf(),
        final(tree).shape() == old(tree).shape(),
        final(tree).root == old(tree).root,
        tables_of(*final(tree), false) == tables_of(*old(tree), false),
        ({
            let st = api_state(*old(tree));
            let f = file_id as int;
            let (st2, ne) = if st[f].0.len() == 0 {
                if fuel == 0 {
                    (st, Some(SpecScopeError::UseCycle(dependency_token(use_node_view(*u)))))
                } else {
                    let (st1, api, its, e) = api_fill_items(
                        st.update(f, (Seq::empty(), Seq::empty())),
                        api_ctx(old(tree).shape(), dep as int, false),
                        (fuel - 1) as nat,
                        Seq::empty(),
                        st[f].1,
                    );
                    (st1.update(f, (api, its)), e)
                }
            } else {
                (st, None)
            };
            api_state(*final(tree)) == st2 && result_view(r) == ne
        }),
    decreases fuel, item, 0nat,
{
    let ghost t0 = *tree;
    let ghost f = file_id as int;
    assert(t0.shape()[f] == node_shape(t0.nodes@[f]));
    if !api_is_empty(tree, file_id) {
        return Ok(());
    }
    if fuel == 0 {
        let t = exec_dependency_token(u).duplicate();
        return Err(ScopeError::UseCycle(t));
    }
    let (mut api, its) = take_file_parts(tree, file_id, true);
    let ghost t1 = *tree;
    proof {
        lemma_tables_update(t0, t1, f, false);
        assert(node_table(t1.nodes@[f], true) =~= Seq::empty());
        assert(node_items(t1.nodes@[f]) =~= Seq::empty());
        assert(api_state(t1) =~= api_state(t0).update(f, (Seq::empty(), Seq::empty())));
        assert(scope_table_view(api) =~= Seq::<(Seq<char>, crate::parser::view::SpecScopeRefNode)>::empty());
        assert(ctx_of(t1, dep, true, false) == api_ctx(t0.shape(), dep as int, false));
    }
    let (its2, res, _) = fill_scope_with_items(tree, dep, &mut api, its, true, false, fuel - 1);
    let ghost t2 = *tree;
    put_file_parts(tree, file_id, true, api, its2);
    proof {
        lemma_tables_update(t2, *tree, f, false);
        assert(api_state(*tree) =~= api_state(t2).update(f, (scope_table_view(api), items_view(its2@))));
    }
    res
}

/// One item of node `node` filled into `scope` (see `fill_item_spec` and
/// `fill_scope_with_items`).
#[verifier::rlimit(100)]
fn fill_item(
    tree: &mut ModTree,
    node: usize,
    scope: &mut ScopeTable,
    item: ItemNode,
    filling_pub_api: bool,
    is_entry: bool,
    fuel: usize,
) -> (r: (ItemNode, Result<(), ScopeError>, Ghost<UsedApis>))
    requires
        old(tree).wf(),
        node < old(tree).nodes@.len(),
    ensures
        final(tree).wf(),
        final(tree).shape() == old(tree).shape(),
        final(tree).root == old(tree).root,
        r.1 is Ok ==> fill_item_spec(
            ctx_of(*old(tree), node, filling_pub_api, is_entry),
            scope_table_view(*old(scope)),
            item_node_view(item),
            r.2@,
        ) == (scope_table_view(*final(scope)), item_node_view(r.0), None::<SpecScopeError>),
        tables_of(*final(tree), false) == tables_of(*old(tree), false),
        !filling_pub_api ==> *final(tree) == *old(tree),
        !filling_pub_api && r.1 is Ok ==> r.2@ == used_apis_of_item(
            ctx_of(*old(tree), node, filling_pub_api, is_entry),
            item_node_view(item),
            exports_of(*old(tree)),
        ),
        filling_pub_api ==> api_fill_item(
            api_state(*old(tree)),
            ctx_of(*old(tree), node, true, is_entry),
            fuel as nat,
            scope_table_view(*old(scope)),
            item_node_view(item),
        ) == (api_state(*final(tree)), scope_table_view(*final(scope)), item_node_view(r.0), result_view(r.1)),
        !filling_pub_api ==> (r.1 matches Err(e) ==> fill_item_spec(
            ctx_of(*old(tree), node, filling_pub_api, is_entry),
            scope_table_view(*old(scope)),
            item_node_view(item),
            used_apis_of_item(ctx_of(*old(tree), node, filling_pub_api, is_entry), item_node_view(item), exports_of(*old(tree))),
        ).2 == Some(scope_err_view(e))),
    decreases fuel, item, 1nat,
{
    let ghost st_old = api_state(*tree);
    let ghost shape = tree.shape();
    assert(shape[node as int] == node_shape(tree.nodes@[node as int]));
    let pkg = String::from_str("_pkg");
    proof {
        reveal_strlit("_pkg");
    }
    assert(pkg@ == pkg_name());
    let is_pkg = tree.nodes[node].name == pkg;
    let ghost item_g = item;
    let ItemNode { item: it, span } = item;
    match it {
        Item::Use(u) => {
            match exec_use_check(is_entry, is_pkg, &u) {
                Some(e) => return (ItemNode { item: Item::Use(u), span }, Err(e), Ghost(UsedApis::Nothing)),
                None => {},
            }
            if filling_pub_api && u.public.is_none() {
                return (ItemNode { item: Item::Use(u), span }, Ok(()), Ghost(UsedApis::Nothing));
            }
            let dep = match find_dependency(tree, node, &u) {
                Ok(d) => d,
                Err(e) => return (ItemNode { item: Item::Use(u), span }, Err(e), Ghost(UsedApis::Nothing)),
            };
            let file_id = match find_dependency_file(tree, dep, exec_dependency_token(&u)) {
                Ok(f) => f,
                Err(e) => return (ItemNode { item: Item::Use(u), span }, Err(e), Ghost(UsedApis::Nothing)),
            };
            if filling_pub_api {
                match fill_dependency_exports(tree, dep, file_id, fuel, &u, Ghost(item_g)) {
                    Ok(()) => {},
                    Err(e) => return (ItemNode { item: Item::Use(u), span }, Err(e), Ghost(UsedApis::Nothing)),
                }
            }
            assert(tree.shape()[file_id as int] == node_shape(tree.nodes@[file_id as int]));
            assert(tree.shape()[dep as int] == node_shape(tree.nodes@[dep as int]));
            let api_ref = match &tree.nodes[file_id].file {
                FerrumModNodeFile::File(f) => &f.pub_api,
                FerrumModNodeFile::Dir(_) => {
                    proof {
                        assert(false);
                    }
                    return (ItemNode { item: Item::Use(u), span }, Ok(()), Ghost(UsedApis::Nothing));
                },
            };
            let ghost api_v = scope_table_view(*api_ref);
            let (u2, res) = apply_use(scope, u, &tree.nodes[dep].name, api_ref);
            (ItemNode { item: Item::Use(u2), span }, res, Ghost(UsedApis::Use(api_v)))
        },
        Item::FnDef(f) => {
            if filling_pub_api && f.pub_token.is_none() {
                return (ItemNode { item: Item::FnDef(f), span }, Ok(()), Ghost(UsedApis::Nothing));
            }
            match exec_fn_check(is_entry, &f) {
                Some(e) => return (ItemNode { item: Item::FnDef(f), span }, Err(e), Ghost(UsedApis::Nothing)),
                None => {},
            }
            scope.insert(f.name.literal.clone(), exec_fn_entry(&f));
            let FnDefNode {
                pub_token,
                fn_token,
                name,
                open_paren,
                params,
                close_paren,
                return_type,
                body,
                scope: fn_scope,
                span: fn_span,
            } = f;
            let mut fn_scope = fn_scope;
            let (body2, res, nested) = match body {
                FnDefBody::Block(b) => {
                    let FnDefBlockNode { items: body_items, close_semicolon, span: block_span } = b;
                    let (its, res, g) = fill_scope_with_items(
                        tree,
                        node,
                        &mut fn_scope,
                        body_items,
                        filling_pub_api,
                        false,
                        fuel,
                    );
                    let ghost its_v = items_view(its@);
                    let body2 = FnDefBody::Block(FnDefBlockNode { items: its, close_semicolon, span: block_span });
                    assert(crate::parser::view::fn_body_view(body2)->Block_items =~= its_v);
                    assert(items_view(body_items@) =~= crate::parser::view::fn_body_view(FnDefBody::Block(FnDefBlockNode { items: body_items, close_semicolon, span: block_span }))->Block_items);
                    (body2, res, Ghost(g@))
                },
                FnDefBody::Stmt(st) => {
                    let FnDefStmtNode { fat_arrow, stmt, span: stmt_span } = st;
                    let (it2, res, g) = fill_item(tree, node, &mut fn_scope, *stmt, filling_pub_api, false, fuel);
                    let ghost one = seq![g@];
                    (
                        FnDefBody::Stmt(FnDefStmtNode { fat_arrow, stmt: Box::new(it2), span: stmt_span }),
                        res,
                        Ghost(one),
                    )
                },
            };
            let f2 = FnDefNode {
                pub_token,
                fn_token,
                name,
                open_paren,
                params,
                close_paren,
                return_type,
                body: body2,
                scope: fn_scope,
                span: fn_span,
            };
            (ItemNode { item: Item::FnDef(f2), span }, res, Ghost(UsedApis::Body(nested@)))
        },
        Item::Statement(st) => (ItemNode { item: Item::Statement(st), span }, Ok(()), Ghost(UsedApis::Nothing)),
    }
}

/// The number of nodes not visited yet.
pub open spec fn unvisited(v: Seq<bool>) -> nat
    decreases v.len(),
{
    if v.len() == 0 {
        0
    } else {
        unvisited(v.drop_last()) + if v.last() {
            0nat
        } else {
            1nat
        }
    }
}

/// Marking more nodes visited never raises the count of unvisited ones,
/// and marking an unvisited one lowers it.
proof fn lemma_unvisited_mono(a: Seq<bool>, b: Seq<bool>, i: int)
    requires
        a.len() == b.len(),
        forall|k: int| 0 <= k < a.len() && #[trigger] a[k] ==> b[k],
    ensures
        unvisited(b) <= unvisited(a),
        0 <= i < a.len() && !a[i] && b[i] ==> unvisited(b) < unvisited(a),
    decreases a.len(),
{
    if a.len() > 0 {
        let n = a.len() - 1;
        lemma_unvisited_mono(a.drop_last(), b.drop_last(), i);
        assert(a.drop_last().len() == b.drop_last().len());
        assert forall|k: int| 0 <= k < a.drop_last().len() && #[trigger] a.drop_last()[k] implies b.drop_last()[k] by {
            assert(a.drop_last()[k] == a[k]);
        }
        lemma_unvisited_mono(a.drop_last(), b.drop_last(), i);
        if 0 <= i < n && !a[i] && b[i] {
            assert(!a.drop_last()[i] && b.drop_last()[i]);
        }
    }
}

/// Whether `b` marks visited at least what `a` does.
pub open spec fn visits_more(a: Seq<bool>, b: Seq<bool>) -> bool {
    &&& a.len() == b.len()
    &&& forall|k: int| 0 <= k < a.len() && #[trigger] a[k] ==> b[k]
}

/// Node `a` after a pass filling in exports (`api`) or scopes reached
/// it, where node `k` exports `ex[k]`: a file whose table was empty has
/// that table, and its items, as filling in its items from an empty table
/// gives them (see `fill_items_from`), without error; any other node stays
/// as it is.
pub open spec fn table_filled(a: FerrumModNode, b: FerrumModNode, api: bool, ctx: FillCtx, ex: Seq<SpecScope>) -> bool {
    match a.file {
        FerrumModNodeFile::File(f) => if node_table(a, api).len() == 0 {
            let r = fill_items_from(ctx, Seq::empty(), items_view(f.items@), ex);
            match b.file {
                FerrumModNodeFile::File(g) => {
                    &&& b == with_parts(
                        a,
                        api,
                        if api {
                            g.pub_api
                        } else {
                            g.scope
                        },
                        g.items,
                    )
                    &&& r.2 is None
                    &&& node_table(b, api) == r.0
                    &&& items_view(g.items@) == r.1
                },
                FerrumModNodeFile::Dir(_) => false,
            }
        } else {
            b == a
        },
        FerrumModNodeFile::Dir(_) => b == a,
    }
}

/// Node `a` after the scope pass reached it (see `table_filled`).
pub open spec fn scope_filled(a: FerrumModNode, b: FerrumModNode, ctx: FillCtx, ex: Seq<SpecScope>) -> bool {
    table_filled(a, b, false, ctx, ex)
}

/// The exports a pass resolves `use` items against: those of `t0` for the
/// scope pass. (The exports pass is stated by `api_fold` instead.)
pub open spec fn pass_exports(t0: ModTree, api: bool) -> Seq<SpecScope> {
    if api {
        Seq::empty()
    } else {
        exports_of(t0)
    }
}

/// What a pass filling in exports (`api`) or scopes, started at node
/// `node`, did to node `k` (from `t0` to `t1`, the visited marks going
/// from `v0` to `v1`): filled it in if the pass visited it (see
/// `table_filled`), else nothing.
pub open spec fn pass_at(
    t0: ModTree,
    t1: ModTree,
    v0: Seq<bool>,
    v1: Seq<bool>,
    k: int,
    node: int,
    is_entry: bool,
    api: bool,
) -> bool {
    if !v0[k] && v1[k] {
        table_filled(
            t0.nodes@[k],
            t1.nodes@[k],
            api,
            ctx_of(t0, k as usize, api, is_entry && k == node),
            pass_exports(t0, api),
        )
    } else {
        t1.nodes@[k] == t0.nodes@[k]
    }
}

/// Whether filling in the exports (`api`) or the scope of node `k` of
/// `t0`, in a pass started at node `node` (the entry file where
/// `is_entry`), fails with `e`: it is a file whose table is empty, and
/// filling in its items from an empty table gives that error.
pub open spec fn fails_at(t0: ModTree, k: int, api: bool, is_entry: bool, node: int, e: ScopeError) -> bool {
    &&& t0.nodes@[k].file is File
    &&& node_table(t0.nodes@[k], api).len() == 0
    &&& fill_items_from(
        ctx_of(t0, k as usize, api, is_entry && k == node),
        Seq::empty(),
        items_view(t0.nodes@[k].file->File_0.items@),
        pass_exports(t0, api),
    ).2 == Some(scope_err_view(e))
}

/// Whether every node that node `k` links to, as a directory or as a
/// sibling, is marked in `v`.
pub open spec fn links_visited(s: Seq<SpecModNode>, v: Seq<bool>, k: int) -> bool {
    &&& forall|j: int| 0 <= j < s[k].children.len() ==> v[#[trigger] s[k].children[j].1 as int]
    &&& forall|j: int| 0 <= j < s[k].siblings.len() ==> v[#[trigger] s[k].siblings[j].1 as int]
}

/// Whether `w` marks, with each node it marks, every node that node links
/// to.
pub open spec fn link_closed(s: Seq<SpecModNode>, w: Seq<bool>) -> bool {
    &&& w.len() == s.len()
    &&& forall|k: int| 0 <= k < s.len() && #[trigger] w[k] ==> links_visited(s, w, k)
}

/// Whether every node marked in `v1` but not in `v0` is marked in `w`.
pub open spec fn newly_within(v0: Seq<bool>, v1: Seq<bool>, w: Seq<bool>) -> bool {
    forall|k: int| 0 <= k < w.len() && !v0[k] && #[trigger] v1[k] ==> w[k]
}

/// A pass step: what a pass from `node` did up to `tb`, followed by a
/// nested pass from another node up to `ta`, is what the pass from `node`
/// did up to `ta`.
proof fn lemma_pass_step(
    t0: ModTree,
    tb: ModTree,
    ta: ModTree,
    v0: Seq<bool>,
    vb: Seq<bool>,
    va: Seq<bool>,
    node: int,
    is_entry: bool,
    c: int,
    api: bool,
)
    requires
        t0.nodes@.len() == v0.len(),
        tb.nodes@.len() == v0.len(),
        ta.nodes@.len() == v0.len(),
        visits_more(v0, vb),
        visits_more(vb, va),
        0 <= node < v0.len(),
        vb[node],
        tb.shape() == t0.shape(),
        !api ==> exports_of(tb) == exports_of(t0),
        forall|k: int| 0 <= k < v0.len() ==> #[trigger] pass_at(t0, tb, v0, vb, k, node, is_entry, api),
        forall|k: int| 0 <= k < v0.len() ==> #[trigger] pass_at(tb, ta, vb, va, k, c, false, api),
    ensures
        forall|k: int| 0 <= k < v0.len() ==> #[trigger] pass_at(t0, ta, v0, va, k, node, is_entry, api),
{
    assert forall|k: int| 0 <= k < v0.len() implies #[trigger] pass_at(t0, ta, v0, va, k, node, is_entry, api) by {
        assert(pass_at(t0, tb, v0, vb, k, node, is_entry, api));
        assert(pass_at(tb, ta, vb, va, k, c, false, api));
        assert(ctx_of(tb, k as usize, api, false) == ctx_of(t0, k as usize, api, false));
        assert(pass_exports(tb, api) == pass_exports(t0, api));
        if v0[k] {
            assert(vb[k]);
        }
    }
}

/// In a well-formed tree every link leads to a node of the tree.
proof fn lemma_targets_in(s: Seq<SpecModNode>)
    requires
        shape_wf(s),
    ensures
        forall|k: int|
            0 <= k < s.len() ==> forall|j: int| 0 <= j < #[trigger] link_targets_of(s, k).len() ==> link_targets_of(s, k)[j] < s.len(),
{
    assert forall|k: int| 0 <= k < s.len() implies forall|j: int|
        0 <= j < #[trigger] link_targets_of(s, k).len() ==> link_targets_of(s, k)[j] < s.len() by {
        assert(links_in(s[k].children, s.len()));
        assert(links_in(s[k].siblings, s.len()));
        let c = s[k].children.map_values(|l: (Seq<char>, usize)| l.1);
        assert forall|j: int| 0 <= j < link_targets_of(s, k).len() implies link_targets_of(s, k)[j] < s.len() by {
            if j < c.len() {
                assert(link_targets_of(s, k)[j] == s[k].children[j].1);
            } else {
                assert(link_targets_of(s, k)[j] == s[k].siblings[j - c.len()].1);
            }
        }
    }
}

/// Unmarked nodes are no more than nodes.
proof fn lemma_unvisited_le(v: Seq<bool>)
    ensures
        unvisited(v) <= v.len(),
    decreases v.len(),
{
    if v.len() > 0 {
        lemma_unvisited_le(v.drop_last());
    }
}

/// Marking more nodes keeps the links of a node marked.
proof fn lemma_links_visited_more(s: Seq<SpecModNode>, v: Seq<bool>, w: Seq<bool>, k: int)
    requires
        links_visited(s, v, k),
        visits_more(v, w),
        shape_wf(s),
        0 <= k < s.len(),
        v.len() == s.len(),
    ensures
        links_visited(s, w, k),
{
    assert forall|j: int| 0 <= j < s[k].children.len() implies w[#[trigger] s[k].children[j].1 as int] by {
        assert(links_in(s[k].children, s.len()));
        assert(v[s[k].children[j].1 as int]);
    }
    assert forall|j: int| 0 <= j < s[k].siblings.len() implies w[#[trigger] s[k].siblings[j].1 as int] by {
        assert(links_in(s[k].siblings, s.len()));
        assert(v[s[k].siblings[j].1 as int]);
    }
}

/// Fills in the exports (`pub_api`) or the scope of every file reached
/// from node `node` not visited yet: the file itself, the nodes of a
/// directory, and the node's siblings, each once. A file whose exports or
/// scope are already there is left as it is. Filling in exports leaves
/// every scope as it is, and gives what a depth-first walk from `node`
/// gives (see `dfs` and `api_fold`); filling in scopes leaves every export
/// as it is, gives each file reached the scope its items give (see
/// `pass_at`), and fails only as a file reached fails (see `fails_at`).
#[verifier::rlimit(100)]
fn fill_mod_node(
    tree: &mut ModTree,
    node: usize,
    visited: &mut Vec<bool>,
    filling_pub_api: bool,
    is_entry: bool,
    Ghost(dfuel): Ghost<nat>,
) -> (r: Result<(), ScopeError>)
    requires
        old(tree).wf(),
        node < old(tree).nodes@.len(),
        old(visited)@.len() == old(tree).nodes@.len(),
        dfuel >= unvisited(old(visited)@),
    ensures
        filling_pub_api ==> api_fold(
            old(tree).shape(),
            api_state(*old(tree)),
            dfs(old(tree).shape(), old(visited)@, node as int, dfuel).0,
            node as int,
            is_entry,
            old(tree).nodes@.len() as nat,
        ) == (api_state(*final(tree)), result_view(r)),
        filling_pub_api && r is Ok ==> final(visited)@ == dfs(old(tree).shape(), old(visited)@, node as int, dfuel).1,
        final(tree).wf(),
        final(tree).shape() == old(tree).shape(),
        final(tree).root == old(tree).root,
        final(tree).nodes@.len() == old(tree).nodes@.len(),
        visits_more(old(visited)@, final(visited)@),
        final(visited)@[node as int],
        filling_pub_api ==> tables_of(*final(tree), false) == tables_of(*old(tree), false),
        !filling_pub_api ==> exports_of(*final(tree)) == exports_of(*old(tree)),
        r is Ok && !filling_pub_api ==> forall|k: int|
            0 <= k < old(tree).nodes@.len() ==> #[trigger] pass_at(
                *old(tree),
                *final(tree),
                old(visited)@,
                final(visited)@,
                k,
                node as int,
                is_entry,
                filling_pub_api,
            ),
        !filling_pub_api ==> (r matches Err(e) ==> exists|k: int|
            0 <= k < old(tree).nodes@.len() && !old(visited)@[k] && final(visited)@[k] && #[trigger] fails_at(
                *old(tree),
                k,
                filling_pub_api,
                is_entry,
                node as int,
                e,
            )),
        r is Ok ==> forall|k: int|
            0 <= k < old(tree).nodes@.len() && !old(visited)@[k] && #[trigger] final(visited)@[k] ==> links_visited(
                old(tree).shape(),
                final(visited)@,
                k,
            ),
        forall|w: Seq<bool>|
            #[trigger] link_closed(old(tree).shape(), w) && w[node as int] ==> newly_within(
                old(visited)@,
                final(visited)@,
                w,
            ),
    decreases unvisited(old(visited)@),
{
    let ghost v0 = visited@;
    let ghost t0 = *tree;
    assert(v0 == old(visited)@);
    if visited[node] {
        assert forall|w: Seq<bool>| #[trigger] link_closed(old(tree).shape(), w) && w[node as int] implies newly_within(
            v0,
            visited@,
            w,
        ) by {}
        assert forall|k: int| 0 <= k < old(tree).nodes@.len() implies #[trigger] pass_at(
            t0,
            *tree,
            v0,
            visited@,
            k,
            node as int,
            is_entry,
            filling_pub_api,
        ) by {}
        return Ok(());
    }
    visited.set(node, true);
    proof {
        lemma_unvisited_mono(v0, visited@, node as int);
    }
    let ghost shape = tree.shape();
    let ghost nn = tree.nodes@.len() as nat;
    let ghost st0 = api_state(t0);
    let ghost tg = link_targets_of(shape, node as int);
    let ghost ll = dfs_list(shape, visited@, tg, 0, (dfuel - 1) as nat);
    let ghost goal = api_fold(shape, st0, dfs(shape, v0, node as int, dfuel).0, node as int, is_entry, nn);
    let ghost step = api_file_step(shape, st0, node as int, is_entry, nn);
    proof {
        assert(dfuel >= 1);
        assert(visited@ == v0.update(node as int, true));
        assert(dfs(shape, v0, node as int, dfuel) == (seq![node as int] + ll.0, ll.1));
        assert((seq![node as int] + ll.0)[0] == node as int);
        assert((seq![node as int] + ll.0).drop_first() =~= ll.0);
        assert(goal == (if step.1 is Some {
            step
        } else {
            api_fold(shape, step.0, ll.0, node as int, is_entry, nn)
        }));
        lemma_targets_in(shape);
    }
    assert(shape[node as int] == node_shape(tree.nodes@[node as int]));
    let is_file = match &tree.nodes[node].file {
        FerrumModNodeFile::File(f) => if filling_pub_api {
            f.pub_api.is_empty()
        } else {
            f.scope.is_empty()
        },
        FerrumModNodeFile::Dir(_) => false,
    };
    if is_file {
        let fuel = tree.nodes.len();
        let (mut table, items) = take_file_parts(tree, node, filling_pub_api);
        let ghost t1 = *tree;
        let ghost table0 = table;
        let ghost items0 = items;
        proof {
            lemma_tables_update(t0, t1, node as int, !filling_pub_api);
        }
        let ghost cond = !filling_pub_api;
        proof {
            assert(scope_table_view(table0) =~= Seq::<(Seq<char>, crate::parser::view::SpecScopeRefNode)>::empty());
            assert(ctx_of(t1, node, filling_pub_api, is_entry) == ctx_of(t0, node, filling_pub_api, is_entry));
        }
        let (items2, res, apis) = fill_scope_with_items(tree, node, &mut table, items, filling_pub_api, is_entry, fuel);
        let ghost t2 = *tree;
        put_file_parts(tree, node, filling_pub_api, table, items2);
        proof {
            lemma_tables_update(t2, *tree, node as int, !filling_pub_api);
            if filling_pub_api {
                assert(node_table(t1.nodes@[node as int], true) =~= Seq::empty());
                assert(node_items(t1.nodes@[node as int]) =~= Seq::empty());
                assert(api_state(t1) =~= st0.update(node as int, (Seq::empty(), Seq::empty())));
                assert(ctx_of(t1, node, true, is_entry) == crate::scope::fill_spec::api_ctx(shape, node as int, is_entry));
                assert(api_state(*tree) =~= api_state(t2).update(node as int, (scope_table_view(table), items_view(items2@))));
                assert(api_state(*tree) == step.0 && result_view(res) == step.1);
            }
            let ctx = ctx_of(t0, node, filling_pub_api, is_entry);
            let iv = items_view(items0@);
            if cond {
                assert(tree.nodes@ =~= t0.nodes@.update(
                    node as int,
                    with_parts(t0.nodes@[node as int], filling_pub_api, table, items2),
                ));
            }
        }
        assert(tree.nodes@.len() == tree.shape().len());
        assert(old(tree).nodes@.len() == old(tree).shape().len());
        match res {
            Ok(()) => {},
            Err(e) => {
                proof {
                    if cond {
                        assert(fails_at(t0, node as int, filling_pub_api, is_entry, node as int, e));
                    }
                    assert forall|w: Seq<bool>| #[trigger] link_closed(old(tree).shape(), w) && w[node as int] implies newly_within(v0, visited@, w) by {
                        assert forall|q: int| 0 <= q < w.len() && !v0[q] && #[trigger] visited@[q] implies w[q] by {
                            if q != node as int {
                                assert(visited@[q] == v0[q]);
                            }
                        }
                    }
                }
                return Err(e);
            },
        }
    }
    proof {
        if !filling_pub_api {
            assert forall|k: int| 0 <= k < old(tree).nodes@.len() implies #[trigger] pass_at(
                t0,
                *tree,
                v0,
                visited@,
                k,
                node as int,
                is_entry,
                filling_pub_api,
            ) by {
                if k != node as int {
                    assert(tree.nodes@[k] == t0.nodes@[k]);
                }
            }
        }
    }
    assert(tree.shape()[node as int] == node_shape(tree.nodes@[node as int]));
    proof {
        if filling_pub_api {
            if !is_file {
                assert(*tree == t0);
                assert(step == (st0, None::<SpecScopeError>));
            }
            assert(api_state(*tree) == step.0 && step.1 is None);
        }
    }
    let children: Vec<usize> = match &tree.nodes[node].file {
        FerrumModNodeFile::Dir(c) => {
            let t = link_targets(c);
            assert forall|j: int| 0 <= j < t@.len() implies #[trigger] t@[j] < tree.nodes@.len() by {
                assert(tree.shape()[node as int].children[j].1 == c@[j].1);
                assert(crate::tree::links_in(tree.shape()[node as int].children, tree.shape().len()));
            }
            t
        },
        FerrumModNodeFile::File(_) => Vec::new(),
    };
    assert(children@.len() == shape[node as int].children.len());
    assert forall|w: Seq<bool>| #[trigger] link_closed(shape, w) && w[node as int] implies newly_within(v0, visited@, w) by {
        assert forall|q: int| 0 <= q < w.len() && !v0[q] && #[trigger] visited@[q] implies w[q] by {
            if q != node as int {
                assert(visited@[q] == v0[q]) by {
                    assert(visits_more(v0, visited@));
                }
            }
        }
    }
    assert forall|j: int| 0 <= j < children@.len() implies #[trigger] children@[j] == shape[node as int].children[j].1 by {}
    let mut k: usize = 0;
    while k < children.len()
        invariant
            tree.wf(),
            tree.shape() == old(tree).shape(),
            shape == old(tree).shape(),
            tree.root == old(tree).root,
            tree.nodes@.len() == old(tree).nodes@.len(),
            t0 == *old(tree),
            node < tree.nodes@.len(),
            visited@.len() == tree.nodes@.len(),
            visits_more(v0, visited@),
            v0 == old(visited)@,
            !v0[node as int],
            visited@[node as int],
            unvisited(visited@) < unvisited(v0),
            k <= children@.len(),
            children@.len() == shape[node as int].children.len(),
            forall|j: int| 0 <= j < children@.len() ==> #[trigger] children@[j] < tree.nodes@.len(),
            forall|j: int| 0 <= j < children@.len() ==> #[trigger] children@[j] == shape[node as int].children[j].1,
            forall|j: int| 0 <= j < k ==> visited@[#[trigger] children@[j] as int],
            tg == link_targets_of(shape, node as int),
            tg.len() == shape[node as int].children.len() + shape[node as int].siblings.len(),
            nn == old(tree).nodes@.len(),
            st0 == api_state(t0),
            dfuel >= unvisited(v0),
            goal == api_fold(shape, st0, dfs(shape, v0, node as int, dfuel).0, node as int, is_entry, nn),
            filling_pub_api ==> api_fold(
                shape,
                api_state(*tree),
                dfs_list(shape, visited@, tg, (k) as nat, (dfuel - 1) as nat).0,
                node as int,
                is_entry,
                nn,
            ) == goal,
            filling_pub_api ==> dfs_list(shape, visited@, tg, (k) as nat, (dfuel - 1) as nat).1 == dfs(
                shape,
                v0,
                node as int,
                dfuel,
            ).1,
            filling_pub_api ==> tables_of(*tree, false) == tables_of(t0, false),
            !filling_pub_api ==> exports_of(*tree) == exports_of(t0),
            !filling_pub_api ==> forall|q: int|
                0 <= q < t0.nodes@.len() ==> #[trigger] pass_at(t0, *tree, v0, visited@, q, node as int, is_entry, filling_pub_api),
            forall|q: int|
                0 <= q < t0.nodes@.len() && !v0[q] && #[trigger] visited@[q] && q != node ==> links_visited(
                    shape,
                    visited@,
                    q,
                ),
            forall|w: Seq<bool>| #[trigger] link_closed(shape, w) && w[node as int] ==> newly_within(v0, visited@, w),
        decreases children@.len() - k,
    {
        let ghost vb = visited@;
        let ghost tb = *tree;
        assert(tree.nodes@.len() == tree.shape().len());
        let ghost ix = (k) as nat;
        proof {
            assert(tg[ix as int] == children@[k as int]);
        }
        let res = fill_mod_node(tree, children[k], visited, filling_pub_api, false, Ghost((dfuel - 1) as nat));
        proof {
            if filling_pub_api {
                let f1 = (dfuel - 1) as nat;
                let c = tg[ix as int] as int;
                let d1 = dfs(shape, vb, c, f1);
                let d2 = dfs_list(shape, d1.1, tg, ix + 1, f1);
                assert(dfs_list(shape, vb, tg, ix, f1) == (d1.0 + d2.0, d2.1));
                lemma_dfs_fresh(shape, vb, c, f1);
                lemma_api_fold_entry(shape, api_state(tb), d1.0, node as int, is_entry, c, false, nn);
                lemma_api_fold_append(shape, api_state(tb), d1.0, d2.0, node as int, is_entry, nn);
            }
        }
        proof {
            assert(vb[node as int]);
            assert(visited@[node as int]);
        }
        match res {
            Ok(()) => {},
            Err(e) => {
                proof {
                    if !filling_pub_api {
                        let q = choose|q: int|
                            0 <= q < tb.nodes@.len() && !vb[q] && visited@[q] && #[trigger] fails_at(tb, q, filling_pub_api, false, children@[k as int] as int, e);
                        assert(pass_at(t0, tb, v0, vb, q, node as int, is_entry, filling_pub_api));
                        assert(!v0[q]);
                        assert(q != node as int);
                        assert(ctx_of(tb, q as usize, filling_pub_api, false) == ctx_of(t0, q as usize, filling_pub_api, false));
                        assert(pass_exports(tb, filling_pub_api) == pass_exports(t0, filling_pub_api));
                        assert(fails_at(t0, q, filling_pub_api, is_entry, node as int, e));
                    }
                    assert forall|w: Seq<bool>| #[trigger] link_closed(shape, w) && w[node as int] implies newly_within(
                        v0,
                        visited@,
                        w,
                    ) by {
                        let c = children@[k as int] as int;
                        assert(links_visited(shape, w, node as int));
                        assert(w[shape[node as int].children[k as int].1 as int]);
                        assert(w[c]);
                        assert(link_closed(tb.shape(), w));
                        assert(newly_within(vb, visited@, w));
                        assert(newly_within(v0, vb, w));
                    }
                }
                return Err(e);
            },
        }
        proof {
            lemma_unvisited_mono(vb, visited@, -1);
            assert(vb[node as int]);
            if !filling_pub_api {
                lemma_pass_step(t0, tb, *tree, v0, vb, visited@, node as int, is_entry, children@[k as int] as int, filling_pub_api);
            }
            assert forall|q: int|
                0 <= q < t0.nodes@.len() && !v0[q] && #[trigger] visited@[q] && q != node implies links_visited(
                    shape,
                    visited@,
                    q,
                ) by {
                if vb[q] {
                    lemma_links_visited_more(shape, vb, visited@, q);
                }
            }
            assert forall|w: Seq<bool>| #[trigger] link_closed(shape, w) && w[node as int] implies newly_within(
                v0,
                visited@,
                w,
            ) by {
                let c = children@[k as int] as int;
                assert(links_visited(shape, w, node as int));
                assert(w[shape[node as int].children[k as int].1 as int]);
                assert(w[c]);
                assert(link_closed(tb.shape(), w));
                assert(newly_within(vb, visited@, w));
                assert(newly_within(v0, vb, w));
            }
            assert forall|j: int| 0 <= j < k + 1 implies visited@[#[trigger] children@[j] as int] by {
                if j < k {
                    assert(vb[children@[j] as int]);
                }
            }
        }
        k = k + 1;
    }
    assert(tree.shape()[node as int] == node_shape(tree.nodes@[node as int]));
    let siblings = link_targets(&tree.nodes[node].sibling_refs);
    assert forall|j: int| 0 <= j < siblings@.len() implies #[trigger] siblings@[j] < tree.nodes@.len() by {
        assert(tree.shape()[node as int].siblings[j].1 == tree.nodes@[node as int].sibling_refs@[j].1);
        assert(crate::tree::links_in(tree.shape()[node as int].siblings, tree.shape().len()));
    }
    assert(siblings@.len() == shape[node as int].siblings.len());
    assert forall|j: int| 0 <= j < siblings@.len() implies #[trigger] siblings@[j] == shape[node as int].siblings[j].1 by {}
    assert forall|j: int| 0 <= j < shape[node as int].children.len() implies visited@[#[trigger] shape[node as int].children[j].1 as int] by {
        assert(children@[j] == shape[node as int].children[j].1);
        assert(visited@[children@[j] as int]);
    }
    let mut k: usize = 0;
    while k < siblings.len()
        invariant
            tree.wf(),
            tree.shape() == old(tree).shape(),
            shape == old(tree).shape(),
            tree.root == old(tree).root,
            tree.nodes@.len() == old(tree).nodes@.len(),
            t0 == *old(tree),
            node < tree.nodes@.len(),
            visited@.len() == tree.nodes@.len(),
            visits_more(v0, visited@),
            v0 == old(visited)@,
            !v0[node as int],
            visited@[node as int],
            unvisited(visited@) < unvisited(v0),
            k <= siblings@.len(),
            siblings@.len() == shape[node as int].siblings.len(),
            forall|j: int| 0 <= j < siblings@.len() ==> #[trigger] siblings@[j] < tree.nodes@.len(),
            forall|j: int| 0 <= j < siblings@.len() ==> #[trigger] siblings@[j] == shape[node as int].siblings[j].1,
            forall|j: int| 0 <= j < k ==> visited@[#[trigger] siblings@[j] as int],
            children@.len() == shape[node as int].children.len(),
            tg == link_targets_of(shape, node as int),
            tg.len() == shape[node as int].children.len() + shape[node as int].siblings.len(),
            nn == old(tree).nodes@.len(),
            st0 == api_state(t0),
            dfuel >= unvisited(v0),
            goal == api_fold(shape, st0, dfs(shape, v0, node as int, dfuel).0, node as int, is_entry, nn),
            filling_pub_api ==> api_fold(
                shape,
                api_state(*tree),
                dfs_list(shape, visited@, tg, (children@.len() + k) as nat, (dfuel - 1) as nat).0,
                node as int,
                is_entry,
                nn,
            ) == goal,
            filling_pub_api ==> dfs_list(shape, visited@, tg, (children@.len() + k) as nat, (dfuel - 1) as nat).1 == dfs(
                shape,
                v0,
                node as int,
                dfuel,
            ).1,
            forall|j: int| 0 <= j < shape[node as int].children.len() ==> visited@[#[trigger] shape[node as int].children[j].1 as int],
            filling_pub_api ==> tables_of(*tree, false) == tables_of(t0, false),
            !filling_pub_api ==> exports_of(*tree) == exports_of(t0),
            !filling_pub_api ==> forall|q: int|
                0 <= q < t0.nodes@.len() ==> #[trigger] pass_at(t0, *tree, v0, visited@, q, node as int, is_entry, filling_pub_api),
            forall|q: int|
                0 <= q < t0.nodes@.len() && !v0[q] && #[trigger] visited@[q] && q != node ==> links_visited(
                    shape,
                    visited@,
                    q,
                ),
            forall|w: Seq<bool>| #[trigger] link_closed(shape, w) && w[node as int] ==> newly_within(v0, visited@, w),
        decreases siblings@.len() - k,
    {
        let ghost vb = visited@;
        let ghost tb = *tree;
        assert(tree.nodes@.len() == tree.shape().len());
        let ghost ix = (children@.len() + k) as nat;
        proof {
            let ca = shape[node as int].children.map_values(|l: (Seq<char>, usize)| l.1);
            let sa = shape[node as int].siblings.map_values(|l: (Seq<char>, usize)| l.1);
            assert(tg == ca + sa);
            assert(ca.len() == children@.len());
            assert(tg[ix as int] == sa[k as int]);
            assert(tg[ix as int] == siblings@[k as int]);
        }
        let res = fill_mod_node(tree, siblings[k], visited, filling_pub_api, false, Ghost((dfuel - 1) as nat));
        proof {
            if filling_pub_api {
                let f1 = (dfuel - 1) as nat;
                let c = tg[ix as int] as int;
                let d1 = dfs(shape, vb, c, f1);
                let d2 = dfs_list(shape, d1.1, tg, ix + 1, f1);
                assert(dfs_list(shape, vb, tg, ix, f1) == (d1.0 + d2.0, d2.1));
                lemma_dfs_fresh(shape, vb, c, f1);
                lemma_api_fold_entry(shape, api_state(tb), d1.0, node as int, is_entry, c, false, nn);
                lemma_api_fold_append(shape, api_state(tb), d1.0, d2.0, node as int, is_entry, nn);
            }
        }
        proof {
            assert(vb[node as int]);
            assert(visited@[node as int]);
        }
        match res {
            Ok(()) => {},
            Err(e) => {
                proof {
                    if !filling_pub_api {
                        let q = choose|q: int|
                            0 <= q < tb.nodes@.len() && !vb[q] && visited@[q] && #[trigger] fails_at(tb, q, filling_pub_api, false, siblings@[k as int] as int, e);
                        assert(pass_at(t0, tb, v0, vb, q, node as int, is_entry, filling_pub_api));
                        assert(!v0[q]);
                        assert(q != node as int);
                        assert(ctx_of(tb, q as usize, filling_pub_api, false) == ctx_of(t0, q as usize, filling_pub_api, false));
                        assert(pass_exports(tb, filling_pub_api) == pass_exports(t0, filling_pub_api));
                        assert(fails_at(t0, q, filling_pub_api, is_entry, node as int, e));
                    }
                    assert forall|w: Seq<bool>| #[trigger] link_closed(shape, w) && w[node as int] implies newly_within(
                        v0,
                        visited@,
                        w,
                    ) by {
                        let c = siblings@[k as int] as int;
                        assert(links_visited(shape, w, node as int));
                        assert(w[shape[node as int].siblings[k as int].1 as int]);
                        assert(w[c]);
                        assert(link_closed(tb.shape(), w));
                        assert(newly_within(vb, visited@, w));
                        assert(newly_within(v0, vb, w));
                    }
                }
                return Err(e);
            },
        }
        proof {
            lemma_unvisited_mono(vb, visited@, -1);
            assert(vb[node as int]);
            if !filling_pub_api {
                lemma_pass_step(t0, tb, *tree, v0, vb, visited@, node as int, is_entry, siblings@[k as int] as int, filling_pub_api);
            }
            assert forall|q: int|
                0 <= q < t0.nodes@.len() && !v0[q] && #[trigger] visited@[q] && q != node implies links_visited(
                    shape,
                    visited@,
                    q,
                ) by {
                if vb[q] {
                    lemma_links_visited_more(shape, vb, visited@, q);
                }
            }
            assert forall|w: Seq<bool>| #[trigger] link_closed(shape, w) && w[node as int] implies newly_within(
                v0,
                visited@,
                w,
            ) by {
                let c = siblings@[k as int] as int;
                assert(links_visited(shape, w, node as int));
                assert(w[shape[node as int].siblings[k as int].1 as int]);
                assert(w[c]);
                assert(link_closed(tb.shape(), w));
                assert(newly_within(vb, visited@, w));
                assert(newly_within(v0, vb, w));
            }
            assert forall|j: int| 0 <= j < k + 1 implies visited@[#[trigger] siblings@[j] as int] by {
                if j < k {
                    assert(vb[siblings@[j] as int]);
                }
            }
            assert forall|j: int| 0 <= j < shape[node as int].children.len() implies visited@[#[trigger] shape[node as int].children[j].1 as int] by {
                assert(vb[shape[node as int].children[j].1 as int]);
                assert(crate::tree::links_in(shape[node as int].children, shape.len()));
            }
        }
        k = k + 1;
    }
    proof {
        if filling_pub_api {
            assert(dfs_list(shape, visited@, tg, tg.len(), (dfuel - 1) as nat) == (Seq::<int>::empty(), visited@));
        }
        assert(links_visited(shape, visited@, node as int)) by {
            assert forall|j: int| 0 <= j < shape[node as int].siblings.len() implies visited@[#[trigger] shape[node as int].siblings[j].1 as int] by {
                assert(siblings@[j] == shape[node as int].siblings[j].1);
            }
        }
    }
    Ok(())
}

/// The nodes named links lead to, in order.
fn link_targets(links: &Vec<(String, usize)>) -> (r: Vec<usize>)
    ensures
        r@.len() == links@.len(),
        forall|j: int| 0 <= j < links@.len() ==> #[trigger] r@[j] == links@[j].1,
{
    let mut r: Vec<usize> = Vec::new();
    let mut i: usize = 0;
    while i < links.len()
        invariant
            i <= links@.len(),
            r@.len() == i,
            forall|j: int| 0 <= j < i ==> #[trigger] r@[j] == links@[j].1,
        decreases links@.len() - i,
    {
        r.push(links[i].1);
        i = i + 1;
    }
    r
}

/// No node marked, for `n` nodes.
pub open spec fn all_unmarked(n: nat) -> Seq<bool> {
    Seq::new(n, |i: int| false)
}

/// What the exports pass from node `root` (the entry file) gives, from
/// `t0`: the nodes a depth-first walk over the links from `root` visits
/// (see `dfs`) have, in that order, their exports filled in where still
/// empty (see `api_file_step`), each `pub use` met first filling in the
/// exports it re-exports (see `api_fill_item`); up to the first error.
/// Gives the exports and items of every node, and that error, if any.
pub open spec fn exports_result(t0: ModTree, root: int) -> (ApiState, Option<SpecScopeError>) {
    let n = t0.nodes@.len() as nat;
    api_fold(t0.shape(), api_state(t0), dfs(t0.shape(), all_unmarked(n), root, n).0, root, true, n)
}

/// Whether links lead from node `root` to node `k`: every marking that
/// marks `root` and, with each node, every node it links to, marks `k`.
pub open spec fn reachable(s: Seq<SpecModNode>, root: int, k: int) -> bool {
    forall|w: Seq<bool>| #[trigger] link_closed(s, w) && w[root] ==> w[k]
}

/// Whether `vis` marks the nodes links lead to from `root`: it marks
/// `root` and, with each node, every node it links to, and no node that
/// another such marking leaves out.
pub open spec fn reached_set(s: Seq<SpecModNode>, root: int, vis: Seq<bool>) -> bool {
    &&& vis.len() == s.len()
    &&& vis[root]
    &&& link_closed(s, vis)
    &&& forall|w: Seq<bool>|
        #[trigger] link_closed(s, w) && w[root] ==> forall|k: int| 0 <= k < vis.len() && vis[k] ==> w[k]
}

/// What the exports pass from node `root` did, from `t0` to `mid`: the
/// shape and the scopes stay, and the exports and items of every node are
/// as `exports_result` gives them, without error.
pub open spec fn exports_pass(t0: ModTree, mid: ModTree, root: int) -> bool {
    &&& mid.shape() == t0.shape()
    &&& mid.nodes@.len() == t0.nodes@.len()
    &&& tables_of(mid, false) == tables_of(t0, false)
    &&& exports_result(t0, root) == (api_state(mid), None::<SpecScopeError>)
}

/// Why the two passes from node `root` of `t0` failed with `e`: the
/// exports pass failed with it (see `exports_result`); or the exports pass
/// left `mid` (see `exports_pass`), and filling in the scope of a file
/// reached fails with it.
pub open spec fn passes_fail(t0: ModTree, mid: ModTree, root: int, e: ScopeError) -> bool {
    ||| exports_result(t0, root).1 == Some(scope_err_view(e))
    ||| (exports_pass(t0, mid, root) && exists|k: int|
        reachable(t0.shape(), root, k) && #[trigger] fails_at(mid, k, false, true, root, e))
}

/// What the two passes from node `root` did, from `t0` to `t1`: `mid` is
/// the tree the exports pass left (see `exports_pass`); `vis` marks the
/// nodes reached from `root` (see `reached_set`). The scope pass gave each
/// file marked in `vis` whose scope was empty the scope its items give
/// with the exports of `mid` (see `scope_filled`), and left every other
/// node as `mid` has it, and every export too.
pub open spec fn scope_passes(t0: ModTree, mid: ModTree, t1: ModTree, vis: Seq<bool>, root: int) -> bool {
    &&& mid.shape() == t0.shape()
    &&& mid.nodes@.len() == t0.nodes@.len()
    &&& tables_of(mid, false) == tables_of(t0, false)
    &&& exports_pass(t0, mid, root)
    &&& exports_of(t1) == exports_of(mid)
    &&& reached_set(t0.shape(), root, vis)
    &&& forall|k: int|
        #![trigger vis[k]]
        0 <= k < vis.len() ==> if vis[k] {
            scope_filled(mid.nodes@[k], t1.nodes@[k], ctx_of(mid, k as usize, false, k == root), exports_of(mid))
        } else {
            t1.nodes@[k] == mid.nodes@[k]
        }
}

/// A mark for each of `n` nodes, none set.
fn unmarked(n: usize) -> (v: Vec<bool>)
    ensures
        v@.len() == n,
        forall|j: int| 0 <= j < n ==> !#[trigger] v@[j],
{
    let mut v: Vec<bool> = Vec::new();
    let mut i: usize = 0;
    while i < n
        invariant
            i <= n,
            v@.len() == i,
            forall|j: int| 0 <= j < i ==> !#[trigger] v@[j],
        decreases n - i,
    {
        v.push(false);
        i = i + 1;
    }
    v
}

/// Fills in the scopes of the project reached from node `root`, the entry
/// file: first the exports of every file, then the full scope of every
/// file, each from the file's items (see `fill_scope_with_items`). On
/// success the tree is as `scope_passes` says; a failure is as
/// `passes_fail` says.
pub fn fill_mod_node_scope(tree: &mut ModTree, root: usize) -> (r: Result<(), ScopeError>)
    requires
        old(tree).wf(),
        root < old(tree).nodes@.len(),
    ensures
        final(tree).wf(),
        final(tree).shape() == old(tree).shape(),
        final(tree).root == old(tree).root,
        r is Ok ==> exists|mid: ModTree, vis: Seq<bool>| #[trigger] scope_passes(*old(tree), mid, *final(tree), vis, root as int),
        r matches Err(e) ==> exists|mid: ModTree| #[trigger] passes_fail(*old(tree), mid, root as int, e),
{
    let ghost t0 = *tree;
    let n = tree.nodes.len();
    let mut visited = unmarked(n);
    let ghost v0 = visited@;
    proof {
        lemma_unvisited_le(visited@);
    }
    let r1 = fill_mod_node(tree, root, &mut visited, true, true, Ghost(n as nat));
    proof {
        assert(v0 =~= all_unmarked(n as nat));
        assert(exports_result(t0, root as int) == (api_state(*tree), result_view(r1)));
    }
    match r1 {
        Ok(()) => {},
        Err(e) => {
            proof {
                assert(passes_fail(t0, t0, root as int, e));
            }
            return Err(e);
        },
    }
    let ghost mid = *tree;
    proof {
        assert(exports_pass(t0, mid, root as int));
    }
    assert(tree.nodes@.len() == tree.shape().len());
    assert(old(tree).nodes@.len() == old(tree).shape().len());
    let mut visited = unmarked(n);
    let ghost w0 = visited@;
    proof {
        lemma_unvisited_le(visited@);
    }
    let r = fill_mod_node(tree, root, &mut visited, false, true, Ghost(n as nat));
    proof {
        if r is Err {
            let e = r->Err_0;
            let w1 = visited@;
            let k = choose|k: int| 0 <= k < mid.nodes@.len() && !w0[k] && w1[k] && #[trigger] fails_at(mid, k, false, true, root as int, e);
            assert(reachable(t0.shape(), root as int, k)) by {
                assert forall|w: Seq<bool>| #[trigger] link_closed(t0.shape(), w) && w[root as int] implies w[k] by {
                    assert(link_closed(mid.shape(), w));
                    assert(newly_within(w0, w1, w));
                }
            }
            assert(passes_fail(t0, mid, root as int, e));
        }
        if r is Ok {
            let w1 = visited@;
            assert forall|k: int| 0 <= k < w1.len() && #[trigger] w1[k] implies links_visited(t0.shape(), w1, k) by {
                assert(!w0[k]);
            }
            assert(link_closed(t0.shape(), w1));
            assert forall|w: Seq<bool>| #[trigger] link_closed(t0.shape(), w) && w[root as int] implies forall|k: int|
                0 <= k < w1.len() && w1[k] ==> w[k] by {
                assert(link_closed(mid.shape(), w));
                assert(newly_within(w0, w1, w));
                assert forall|k: int| 0 <= k < w1.len() && w1[k] implies w[k] by {
                    assert(!w0[k]);
                }
            }
            assert forall|k: int| 0 <= k < w1.len() implies (if #[trigger] w1[k] {
                scope_filled(mid.nodes@[k], tree.nodes@[k], ctx_of(mid, k as usize, false, k == root), exports_of(mid))
            } else {
                tree.nodes@[k] == mid.nodes@[k]
            }) by {
                assert(!w0[k]);
                assert(pass_at(mid, *tree, w0, w1, k, root as int, true, false));
            }
            assert(scope_passes(t0, mid, *tree, w1, root as int));
        }
    }
    r
}

/// Checks and completes what the scopes say of a project. There are no
/// checks yet: the tree is left as it is.
pub fn analyze_and_fix(tree: &mut ModTree) -> (r: Result<(), ScopeError>)
    ensures
        r is Ok,
        *final(tree) == *old(tree),
{
    Ok(())
}

/// Fills in the scopes of a project from its entry node (see
/// `fill_mod_node_scope`).
pub fn fill_project_node_scope(tree: &mut ModTree) -> (r: Result<(), ScopeError>)
    requires
        old(tree).wf(),
    ensures
        final(tree).wf(),
        final(tree).shape() == old(tree).shape(),
        final(tree).root == old(tree).root,
        r is Ok ==> exists|mid: ModTree, vis: Seq<bool>|
            #[trigger] scope_passes(*old(tree), mid, *final(tree), vis, old(tree).root as int),
        r matches Err(e) ==> exists|mid: ModTree| #[trigger] passes_fail(*old(tree), mid, old(tree).root as int, e),
{
    let root = tree.root;
    fill_mod_node_scope(tree, root)
}

} // verus!

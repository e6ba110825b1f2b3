//! Building the module tree of a project from its source files: the entry
//! file, the files and directories beside it, and a package file for each
//! directory that has none.
use vstd::prelude::*;

use crate::lexer::chars::push_char;
use crate::lexer::spec::spec_lex;
use crate::lexer::token::{token_views, Keyword, Token, TokenType};
use crate::lexer::{chars_of, try_lex_into_tokens};
use crate::parser::ast::{
    FerrumFileAst, FileType, InitUsePattern, Item, ItemNode, UseNode, UsePatternNode,
};
use crate::parser::items::{parse_rust_bindings_to_ast, parse_to_ast};
use crate::parser::view::{file_view, scope_table_view};
use crate::parser::ParseError;
use crate::project::spec::{
    add_dir_entries, add_dir_entry, add_top_entries, add_top_entry, build_err, compiled, dir_nodes,
    link_all, link_one, lone_node, pkg_file, pkg_file_name, project_nodes, spec_node, spec_nodes,
    BuildError, SpecNode,
};
use crate::scope::fill::{analyze_and_fix, fill_project_node_scope, passes_fail, scope_passes};
use crate::scope::fill_spec::pkg_name;
use crate::scope::resolve::ScopeError;
use crate::scope::ScopeTable;
use crate::span::Span;
use crate::tree::{
    insert_link, links_in, links_view, node_shape, shape_wf, tree_shape, FerrumModNode,
    FerrumModNodeFile, ModTree,
};

pub mod spec;

verus! {

/// A source file: its name with its extension, its path, and its text.
#[derive(Debug)]
pub struct SourceFile {
    pub file_name: String,
    pub path: String,
    pub content: String,
}

/// A file or a directory of source files, as read from disk.
#[derive(Debug)]
pub enum SourceEntry {
    File(SourceFile),
    Dir { name: String, path: String, entries: Vec<SourceEntry> },
}

/// Why a project cannot be built into a module tree.
#[derive(Debug)]
pub enum CompileError {
    /// The text of the file at this path cannot be lexed.
    Lex(String),
    /// The tokens of the file at this path cannot be parsed.
    Parse(String, ParseError),
    /// A file that cannot stand where it is: a package file of bindings,
    /// or an entry file without a name.
    InvalidFile(String),
    /// The scopes of the project cannot be filled in.
    Scope(ScopeError),
    /// More files than positions in the tree.
    TooManyFiles,
}

/// Whether `s` ends with `suf`.
pub open spec fn has_suffix(s: Seq<char>, suf: Seq<char>) -> bool {
    s.len() >= suf.len() && s.subrange(s.len() - suf.len(), s.len() as int) == suf
}

/// The extension of Ferrum source files.
pub open spec fn fe_ext() -> Seq<char> {
    seq!['.', 'f', 'e']
}

/// The extension of files of bindings to local Rust code.
pub open spec fn rs_fe_ext() -> Seq<char> {
    seq!['.', 'r', 's', '-', 'f', 'e']
}

/// What a file of the given name is: its module name and its kind, or
/// nothing for a file that is not a source file.
pub open spec fn file_kind(name: Seq<char>) -> Option<(Seq<char>, FileType)> {
    if has_suffix(name, fe_ext()) {
        Some((name.take(name.len() - 3), FileType::Ferrum))
    } else if has_suffix(name, rs_fe_ext()) {
        Some((name.take(name.len() - 6), FileType::LocalRustBind))
    } else {
        None
    }
}

/// Whether `s` ends with the characters of `suf`.
fn exec_has_suffix(s: &Vec<char>, suf: &Vec<char>) -> (b: bool)
    ensures
        b == has_suffix(s@, suf@),
{
    if s.len() < suf.len() {
        return false;
    }
    let off = s.len() - suf.len();
    let sl = s.len();
    let mut i: usize = 0;
    while i < suf.len()
        invariant
            sl == s@.len(),
            off == s@.len() - suf@.len(),
            s@.len() >= suf@.len(),
            i <= suf@.len(),
            forall|j: int| 0 <= j < i ==> s@[off + j] == suf@[j],
        decreases suf@.len() - i,
    {
        if s[off + i] != suf[i] {
            assert(s@.subrange(off as int, s@.len() as int)[i as int] != suf@[i as int]);
            return false;
        }
        i = i + 1;
    }
    assert(s@.subrange(off as int, s@.len() as int) =~= suf@);
    true
}

/// The text of the first `n` characters.
fn prefix_string(cs: &Vec<char>, n: usize) -> (s: String)
    requires
        n <= cs@.len(),
    ensures
        s@ == cs@.take(n as int),
{
    let mut s = String::new();
    let mut i: usize = 0;
    while i < n
        invariant
            n <= cs@.len(),
            i <= n,
            s@ == cs@.take(i as int),
        decreases n - i,
    {
        push_char(&mut s, cs[i]);
        assert(cs@.take(i + 1) =~= cs@.take(i as int).push(cs@[i as int]));
        i = i + 1;
    }
    s
}

/// The module name and kind of a file (see `file_kind`).
pub fn exec_file_kind(name: &String) -> (r: Option<(String, FileType)>)
    ensures
        match (r, file_kind(name@)) {
            (Some((n, k)), Some((sn, sk))) => n@ == sn && k == sk,
            (None, None) => true,
            _ => false,
        },
{
    let cs = chars_of(name);
    let fe = chars_of(&String::from_str(".fe"));
    let rs_fe = chars_of(&String::from_str(".rs-fe"));
    proof {
        reveal_strlit(".fe");
        reveal_strlit(".rs-fe");
        assert(fe@ =~= fe_ext());
        assert(rs_fe@ =~= rs_fe_ext());
    }
    if exec_has_suffix(&cs, &fe) {
        Some((prefix_string(&cs, cs.len() - 3), FileType::Ferrum))
    } else if exec_has_suffix(&cs, &rs_fe) {
        Some((prefix_string(&cs, cs.len() - 6), FileType::LocalRustBind))
    } else {
        None
    }
}

/// The module name of a file: its name up to its last `.`, or its whole
/// name when the only `.` is its first character or there is none.
pub open spec fn file_stem(name: Seq<char>) -> Seq<char> {
    if exists|i: int| 0 < i < name.len() && name[i] == '.' {
        let i = choose|i: int|
            0 < i < name.len() && name[i] == '.' && forall|j: int| i < j < name.len() ==> name[j] != '.';
        name.take(i)
    } else {
        name
    }
}

/// The module name of a file (see `file_stem`).
pub fn exec_file_stem(name: &String) -> (r: String)
    ensures
        r@ == file_stem(name@),
{
    let cs = chars_of(name);
    let mut i: usize = cs.len();
    while i > 1
        invariant
            i <= cs@.len(),
            cs@ == name@,
            forall|j: int| i <= j < cs@.len() ==> cs@[j] != '.',
        decreases i,
    {
        if cs[i - 1] == '.' {
            let k = i - 1;
            proof {
                let c = choose|c: int|
                    0 < c < name@.len() && name@[c] == '.' && forall|j: int| c < j < name@.len() ==> name@[j] != '.';
                assert(0 < k < name@.len() && name@[k as int] == '.' && forall|j: int| k < j < name@.len() ==> name@[j] != '.');
                if c < k {
                    assert(name@[k as int] != '.');
                } else if c > k {
                    assert(name@[c] != '.');
                }
            }
            return prefix_string(&cs, k);
        }
        i = i - 1;
    }
    proof {
        if exists|c: int| 0 < c < name@.len() && name@[c] == '.' {
            let c = choose|c: int| 0 < c < name@.len() && name@[c] == '.';
            assert(cs@[c] != '.');
        }
    }
    assert(cs@.take(cs@.len() as int) =~= cs@);
    prefix_string(&cs, cs.len())
}

impl FerrumFileAst {
    /// An empty file of the given kind, with empty scopes.
    pub fn new(file_type: FileType) -> (f: FerrumFileAst)
        ensures
            f.file_type == file_type,
            f.items@.len() == 0,
            scope_table_view(f.pub_api).len() == 0,
            scope_table_view(f.scope).len() == 0,
            f.span == crate::span::spec_point_span(crate::span::SpanPoint { line: 0, column: 0 }),
    {
        FerrumFileAst {
            file_type,
            items: Vec::new(),
            pub_api: ScopeTable::new(),
            scope: ScopeTable::new(),
            span: Span::at(0, 0),
        }
    }
}

impl FerrumModNode {
    /// A node without links, at position 0 until it is added to a tree.
    pub fn new(name: String, path: String, file: FerrumModNodeFile) -> (n: FerrumModNode)
        ensures
            n.id == 0,
            n.name == name,
            n.path == path,
            n.file == file,
            n.sibling_refs@.len() == 0,
            n.parent_ref is None,
    {
        FerrumModNode { id: 0, name, path, file, sibling_refs: Vec::new(), parent_ref: None }
    }
}

/// The tokens of a text, or the error that says it cannot be lexed.
fn lex_file(content: String, path: &String) -> (r: Result<Vec<Token>, CompileError>)
    ensures
        match r {
            Ok(ts) => spec_lex(content@) == Some(token_views(ts@)) && ts@.len() < usize::MAX && content@.len()
                < usize::MAX,
            Err(e) => e == CompileError::Lex(e->Lex_0) && e->Lex_0@ == path@ && (spec_lex(content@) matches Some(
                ts,
            ) ==> content@.len() >= usize::MAX || ts.len() >= usize::MAX),
        },
{
    let n = chars_of(&content).len();
    if n == usize::MAX {
        return Err(CompileError::Lex(path.clone()));
    }
    match try_lex_into_tokens(content) {
        Some(ts) => {
            if ts.len() == usize::MAX {
                return Err(CompileError::Lex(path.clone()));
            }
            Ok(ts)
        },
        None => Err(CompileError::Lex(path.clone())),
    }
}

/// A node for a Ferrum source file: its text lexed and parsed.
pub fn compile_to_ferrum_mod_node(content: String, name: String, path: String) -> (r: Result<
    FerrumModNode,
    CompileError,
>)
    ensures
        match compiled(content@, path@, FileType::Ferrum) {
            Ok(sf) => r matches Ok(n) && {
                &&& n.name == name
                &&& n.path == path
                &&& n.id == 0
                &&& n.sibling_refs@.len() == 0
                &&& n.parent_ref is None
                &&& n.file matches FerrumModNodeFile::File(f) && file_view(f) == sf
            },
            Err(e) => r matches Err(ce) && build_err(ce) == Some(e),
        },
{
    let tokens = match lex_file(content, &path) {
        Ok(ts) => ts,
        Err(e) => return Err(e),
    };
    match parse_to_ast(tokens) {
        Ok(f) => Ok(FerrumModNode::new(name, path, FerrumModNodeFile::File(f))),
        Err(e) => Err(CompileError::Parse(path, e)),
    }
}

/// A node for a file of bindings to local Rust code: its text lexed and
/// parsed, functions without bodies allowed.
pub fn compile_to_rust_bindings_node(content: String, name: String, path: String) -> (r: Result<
    FerrumModNode,
    CompileError,
>)
    ensures
        match compiled(content@, path@, FileType::LocalRustBind) {
            Ok(sf) => r matches Ok(n) && {
                &&& n.name == name
                &&& n.path == path
                &&& n.id == 0
                &&& n.sibling_refs@.len() == 0
                &&& n.parent_ref is None
                &&& n.file matches FerrumModNodeFile::File(f) && file_view(f) == sf
            },
            Err(e) => r matches Err(ce) && build_err(ce) == Some(e),
        },
{
    let tokens = match lex_file(content, &path) {
        Ok(ts) => ts,
        Err(e) => return Err(e),
    };
    match parse_rust_bindings_to_ast(tokens) {
        Ok(f) => Ok(FerrumModNode::new(name, path, FerrumModNodeFile::File(f))),
        Err(e) => Err(CompileError::Parse(path, e)),
    }
}

/// Whether the nodes, as built so far, form a well-formed tree.
pub open spec fn nodes_wf(nodes: Seq<FerrumModNode>) -> bool {
    shape_wf(tree_shape(nodes))
}

/// Adds `node` to the tree, in `parent` if given, and gives its position.
fn add_node(nodes: &mut Vec<FerrumModNode>, node: FerrumModNode, parent: Option<usize>) -> (id: usize)
    requires
        nodes_wf(old(nodes)@),
        old(nodes)@.len() < usize::MAX,
        parent matches Some(p) ==> p < old(nodes)@.len(),
        links_in(node_shape(node).children, old(nodes)@.len()),
        links_in(node_shape(node).siblings, old(nodes)@.len()),
    ensures
        nodes_wf(final(nodes)@),
        id == old(nodes)@.len(),
        final(nodes)@.len() == old(nodes)@.len() + 1,
        forall|k: int| 0 <= k < old(nodes)@.len() ==> final(nodes)@[k] == old(nodes)@[k],
        final(nodes)@[id as int].name == node.name,
        final(nodes)@[id as int].path == node.path,
        final(nodes)@[id as int].file == node.file,
        final(nodes)@[id as int].sibling_refs == node.sibling_refs,
        final(nodes)@[id as int].parent_ref == parent,
        spec_nodes(final(nodes)@) == spec_nodes(old(nodes)@).push(SpecNode { parent, ..spec_node(node) }),
{
    let id = nodes.len();
    let mut node = node;
    node.id = id;
    node.parent_ref = parent;
    let ghost old_nodes = nodes@;
    nodes.push(node);
    assert(spec_nodes(nodes@) =~= spec_nodes(old_nodes).push(spec_node(node)));
    proof {
        let s = tree_shape(nodes@);
        assert(nodes@.take(id as int) =~= old_nodes);
        assert forall|i: int| 0 <= i < s.len() implies {
            &&& (#[trigger] s[i]).id == i
            &&& links_in(s[i].children, s.len())
            &&& links_in(s[i].siblings, s.len())
            &&& match s[i].parent {
                Some(p) => p < i,
                None => true,
            }
        } by {
            if i < id {
                assert(s[i] == tree_shape(old_nodes)[i]);
            }
        }
    }
    id
}

/// Makes the sibling link of node `from` named `name` lead to node `to`.
fn link_sibling(nodes: &mut Vec<FerrumModNode>, from: usize, name: String, to: usize)
    requires
        nodes_wf(old(nodes)@),
        from < old(nodes)@.len(),
        to < old(nodes)@.len(),
    ensures
        nodes_wf(final(nodes)@),
        final(nodes)@.len() == old(nodes)@.len(),
        forall|i: int| 0 <= i < old(nodes)@.len() && i != from ==> final(nodes)@[i] == old(nodes)@[i],
        final(nodes)@[from as int].name == old(nodes)@[from as int].name,
        final(nodes)@[from as int].file == old(nodes)@[from as int].file,
        final(nodes)@[from as int].parent_ref == old(nodes)@[from as int].parent_ref,
        spec_nodes(final(nodes)@) == link_one(spec_nodes(old(nodes)@), from as int, name@, to),
{
    let ghost old_nodes = nodes@;
    let ghost k = name@;
    let mut n = nodes.remove(from);
    insert_link(&mut n.sibling_refs, name, to);
    nodes.insert(from, n);
    proof {
        assert(nodes@ =~= old_nodes.update(from as int, n));
        assert(spec_nodes(nodes@) =~= link_one(spec_nodes(old_nodes), from as int, k, to));
        let s = tree_shape(nodes@);
        let s0 = tree_shape(old_nodes);
        let l = links_view(n.sibling_refs@);
        assert(links_in(s0[from as int].siblings, s0.len()));
        assert forall|k: int| 0 <= k < l.len() implies #[trigger] l[k].1 < s.len() by {
            let l0 = s0[from as int].siblings;
            crate::tree::lemma_link_index(l0, name@);
            if l == l0.push((name@, to)) {
                if k < l0.len() {
                    assert(l[k] == l0[k]);
                }
            } else {
                assert(l == l0.update(crate::tree::link_index(l0, name@), (name@, to)));
                if k != crate::tree::link_index(l0, name@) {
                    assert(l[k] == l0[k]);
                }
            }
        }
        assert forall|i: int| 0 <= i < s.len() implies {
            &&& (#[trigger] s[i]).id == i
            &&& links_in(s[i].children, s.len())
            &&& links_in(s[i].siblings, s.len())
            &&& match s[i].parent {
                Some(p) => p < i,
                None => true,
            }
        } by {
            if i != from {
                assert(s[i] == s0[i]);
            }
        }
    }
}

/// Makes node `dir` a directory with the given children.
fn set_children(nodes: &mut Vec<FerrumModNode>, dir: usize, children: Vec<(String, usize)>)
    requires
        nodes_wf(old(nodes)@),
        dir < old(nodes)@.len(),
        links_in(links_view(children@), old(nodes)@.len()),
    ensures
        nodes_wf(final(nodes)@),
        final(nodes)@.len() == old(nodes)@.len(),
        forall|i: int| 0 <= i < old(nodes)@.len() && i != dir ==> final(nodes)@[i] == old(nodes)@[i],
        final(nodes)@[dir as int].name == old(nodes)@[dir as int].name,
        final(nodes)@[dir as int].parent_ref == old(nodes)@[dir as int].parent_ref,
        final(nodes)@[dir as int].file is Dir,
        spec_nodes(final(nodes)@) == spec_nodes(old(nodes)@).update(
            dir as int,
            SpecNode { children: links_view(children@), file: None, ..spec_nodes(old(nodes)@)[dir as int] },
        ),
{
    let ghost old_nodes = nodes@;
    let ghost cv = links_view(children@);
    let mut n = nodes.remove(dir);
    n.file = FerrumModNodeFile::Dir(children);
    nodes.insert(dir, n);
    proof {
        assert(nodes@ =~= old_nodes.update(dir as int, n));
        assert(spec_nodes(nodes@) =~= spec_nodes(old_nodes).update(
            dir as int,
            SpecNode { children: cv, file: None, ..spec_nodes(old_nodes)[dir as int] },
        ));
        let s = tree_shape(nodes@);
        let s0 = tree_shape(old_nodes);
        assert forall|i: int| 0 <= i < s.len() implies {
            &&& (#[trigger] s[i]).id == i
            &&& links_in(s[i].children, s.len())
            &&& links_in(s[i].siblings, s.len())
            &&& match s[i].parent {
                Some(p) => p < i,
                None => true,
            }
        } by {
            if i != dir {
                assert(s[i] == s0[i]);
            } else {
                assert(s[i].children == cv);
                assert(s[i].siblings == s0[i].siblings);
                assert(s[i].id == s0[i].id);
                assert(s[i].parent == s0[i].parent);
            }
        }
    }
}

/// Sets the sibling links of node `id` to `links`.
fn set_siblings(nodes: &mut Vec<FerrumModNode>, id: usize, links: Vec<(String, usize)>)
    requires
        nodes_wf(old(nodes)@),
        id < old(nodes)@.len(),
        links_in(links_view(links@), old(nodes)@.len()),
    ensures
        nodes_wf(final(nodes)@),
        final(nodes)@.len() == old(nodes)@.len(),
        final(nodes)@[id as int].name == old(nodes)@[id as int].name,
        final(nodes)@[id as int].file == old(nodes)@[id as int].file,
        final(nodes)@[id as int].parent_ref == old(nodes)@[id as int].parent_ref,
        spec_nodes(final(nodes)@) == spec_nodes(old(nodes)@).update(
            id as int,
            SpecNode { siblings: links_view(links@), ..spec_nodes(old(nodes)@)[id as int] },
        ),
{
    let ghost old_nodes = nodes@;
    let ghost lv = links_view(links@);
    let mut n = nodes.remove(id);
    n.sibling_refs = links;
    nodes.insert(id, n);
    proof {
        assert(nodes@ =~= old_nodes.update(id as int, n));
        assert(spec_nodes(nodes@) =~= spec_nodes(old_nodes).update(
            id as int,
            SpecNode { siblings: lv, ..spec_nodes(old_nodes)[id as int] },
        ));
        let s = tree_shape(nodes@);
        let s0 = tree_shape(old_nodes);
        assert forall|i: int| 0 <= i < s.len() implies {
            &&& (#[trigger] s[i]).id == i
            &&& links_in(s[i].children, s.len())
            &&& links_in(s[i].siblings, s.len())
            &&& match s[i].parent {
                Some(p) => p < i,
                None => true,
            }
        } by {
            if i != id {
                assert(s[i] == s0[i]);
            } else {
                assert(s[i].siblings == lv);
                assert(s[i].children == s0[i].children);
                assert(s[i].id == s0[i].id);
                assert(s[i].parent == s0[i].parent);
            }
        }
    }
}

/// Inserting a link to a node of the tree keeps every link in the tree.
proof fn lemma_link_insert_in(l: crate::tree::SpecLinks, k: Seq<char>, v: usize, n: nat)
    requires
        links_in(l, n),
        v < n,
    ensures
        links_in(crate::tree::link_insert(l, k, v), n),
{
    crate::tree::lemma_link_index(l, k);
    let l2 = crate::tree::link_insert(l, k, v);
    assert forall|j: int| 0 <= j < l2.len() implies #[trigger] l2[j].1 < n by {
        if j < l.len() && l2[j] != (k, v) {
            assert(l2[j] == l[j]);
        }
    }
}

/// Inserting a link to a node after `lo` keeps every link after `lo`.
proof fn lemma_links_above(before: Seq<(String, usize)>, after: Seq<(String, usize)>, k: Seq<char>, v: usize, lo: nat)
    requires
        links_view(after) == crate::tree::link_insert(links_view(before), k, v),
        forall|j: int| 0 <= j < before.len() ==> #[trigger] before[j].1 > lo,
        v > lo,
    ensures
        forall|j: int| 0 <= j < after.len() ==> #[trigger] after[j].1 > lo,
{
    let l = links_view(before);
    crate::tree::lemma_link_index(l, k);
    let i = crate::tree::link_index(l, k);
    assert forall|j: int| 0 <= j < after.len() implies #[trigger] after[j].1 > lo by {
        assert(links_view(after)[j].1 == after[j].1);
        if i >= 0 {
            assert(links_view(after) == l.update(i, (k, v)));
            if j != i {
                assert(l[j].1 == before[j].1);
            }
        } else {
            assert(links_view(after) == l.push((k, v)));
            if j < before.len() {
                assert(l[j].1 == before[j].1);
            }
        }
    }
}

/// The item `pub use name` of a package file made for a directory.
pub open spec fn pkg_use_item(name: Seq<char>) -> crate::parser::view::SpecItemNode {
    let sp = crate::span::spec_point_span(crate::span::SpanPoint { line: 0, column: 0 });
    crate::parser::view::SpecItemNode {
        item: crate::parser::view::SpecItem::Use(
            crate::parser::view::SpecUseNode {
                public: Some(
                    crate::lexer::token::TokenView {
                        token_type: TokenType::Keyword(Keyword::Pub),
                        literal: seq!['p', 'u', 'b'],
                        span: sp,
                    },
                ),
                use_token: crate::lexer::token::TokenView {
                    token_type: TokenType::Keyword(Keyword::Use),
                    literal: seq!['u', 's', 'e'],
                    span: sp,
                },
                pattern_prefix: None,
                use_pattern: crate::parser::view::SpecInitUsePatternNode {
                    use_pattern: crate::parser::view::SpecInitUsePattern::Id(
                        crate::lexer::token::TokenView {
                            token_type: TokenType::Identifier,
                            literal: name,
                            span: sp,
                        },
                    ),
                    span: sp,
                },
                span: sp,
            },
        ),
        span: sp,
    }
}

/// The package file made for a directory that has none: `pub use name`
/// for each of the directory's nodes, in order.
fn generated_pkg_file(children: &Vec<(String, usize)>) -> (f: FerrumFileAst)
    ensures
        f.file_type == FileType::Ferrum,
        crate::parser::view::items_view(f.items@) == Seq::new(
            children@.len(),
            |k: int| pkg_use_item(children@[k].0@),
        ),
        file_view(f) == pkg_file(links_view(children@)),
{
    let mut f = FerrumFileAst::new(FileType::Ferrum);
    let mut i: usize = 0;
    let pub_text = String::from_str("pub");
    let use_text = String::from_str("use");
    proof {
        reveal_strlit("pub");
        reveal_strlit("use");
    }
    while i < children.len()
        invariant
            i <= children@.len(),
            f.file_type == FileType::Ferrum,
            scope_table_view(f.pub_api).len() == 0,
            scope_table_view(f.scope).len() == 0,
            f.span == crate::span::spec_point_span(crate::span::SpanPoint { line: 0, column: 0 }),
            pub_text@ == seq!['p', 'u', 'b'],
            use_text@ == seq!['u', 's', 'e'],
            crate::parser::view::items_view(f.items@) == Seq::new(i as nat, |k: int| pkg_use_item(children@[k].0@)),
        decreases children@.len() - i,
    {
        let sp = Span::at(0, 0);
        let item = ItemNode {
            item: Item::Use(
                UseNode {
                    public: Some(Token::new(TokenType::Keyword(Keyword::Pub), pub_text.clone(), sp)),
                    use_token: Token::new(TokenType::Keyword(Keyword::Use), use_text.clone(), sp),
                    pattern_prefix: None,
                    use_pattern: UsePatternNode {
                        use_pattern: InitUsePattern::Id(Token::new(TokenType::Identifier, children[i].0.clone(), sp)),
                        span: sp,
                    },
                    span: sp,
                },
            ),
            span: sp,
        };
        let ghost before = f.items@;
        assert(crate::parser::view::item_node_view(item) == pkg_use_item(children@[i as int].0@));
        f.items.push(item);
        assert(crate::parser::view::items_view(f.items@) =~= crate::parser::view::items_view(before).push(
            crate::parser::view::item_node_view(item),
        ));
        assert(crate::parser::view::items_view(f.items@) =~= Seq::new(
            (i + 1) as nat,
            |k: int| pkg_use_item(children@[k].0@),
        ));
        i = i + 1;
    }
    assert(scope_table_view(f.pub_api) =~= Seq::empty());
    assert(scope_table_view(f.scope) =~= Seq::empty());
    assert(crate::parser::view::items_view(f.items@) =~= pkg_file(links_view(children@)).items);
    f
}

/// `dir` followed by `/` and `file`.
fn join_path(dir: &String, file: &String) -> (r: String)
    ensures
        r@ == dir@.push('/') + file@,
{
    let mut r = dir.clone();
    push_char(&mut r, '/');
    let cs = chars_of(file);
    let ghost base = r@;
    let mut i: usize = 0;
    while i < cs.len()
        invariant
            i <= cs@.len(),
            cs@ == file@,
            base == dir@.push('/'),
            r@ == base + cs@.take(i as int),
        decreases cs@.len() - i,
    {
        push_char(&mut r, cs[i]);
        assert(cs@.take(i + 1) =~= cs@.take(i as int).push(cs@[i as int]));
        i = i + 1;
    }
    assert(cs@.take(cs@.len() as int) =~= cs@);
    r
}

/// Whether a name starts with `.` (a hidden file).
fn starts_with_dot(name: &String) -> (b: bool)
    ensures
        b == (name@.len() > 0 && name@[0] == '.'),
{
    let cs = chars_of(name);
    cs.len() > 0 && cs[0] == '.'
}

/// Makes each pair of distinct names among `links` siblings of each other.
fn link_all_siblings(nodes: &mut Vec<FerrumModNode>, links: &Vec<(String, usize)>, Ghost(lo): Ghost<nat>)
    requires
        nodes_wf(old(nodes)@),
        links_in(links_view(links@), old(nodes)@.len()),
        forall|k: int| 0 <= k < links@.len() ==> #[trigger] links@[k].1 >= lo,
    ensures
        nodes_wf(final(nodes)@),
        final(nodes)@.len() == old(nodes)@.len(),
        forall|k: int| 0 <= k < lo && k < old(nodes)@.len() ==> final(nodes)@[k] == old(nodes)@[k],
        forall|k: int|
            0 <= k < old(nodes)@.len() ==> final(nodes)@[k].name == old(nodes)@[k].name && final(nodes)@[k].file
                == old(nodes)@[k].file && final(nodes)@[k].parent_ref == old(nodes)@[k].parent_ref,
        spec_nodes(final(nodes)@) == link_all(spec_nodes(old(nodes)@), links_view(links@)),
{
    let ghost s0 = spec_nodes(nodes@);
    let ghost lv = links_view(links@);
    let mut i: usize = 0;
    while i < links.len()
        invariant
            nodes_wf(nodes@),
            nodes@.len() == old(nodes)@.len(),
            links_in(links_view(links@), nodes@.len()),
            forall|k: int| 0 <= k < links@.len() ==> #[trigger] links@[k].1 >= lo,
            forall|k: int| 0 <= k < lo && k < old(nodes)@.len() ==> nodes@[k] == old(nodes)@[k],
            forall|k: int|
                0 <= k < old(nodes)@.len() ==> nodes@[k].name == old(nodes)@[k].name && nodes@[k].file
                    == old(nodes)@[k].file && nodes@[k].parent_ref == old(nodes)@[k].parent_ref,
            s0 == spec_nodes(old(nodes)@),
            lv == links_view(links@),
            i <= links@.len(),
            spec_nodes(nodes@) == crate::project::spec::link_rows(s0, lv, i as nat),
        decreases links@.len() - i,
    {
        let mut j: usize = 0;
        while j < links.len()
            invariant
                nodes_wf(nodes@),
                nodes@.len() == old(nodes)@.len(),
                links_in(links_view(links@), nodes@.len()),
                forall|k: int| 0 <= k < links@.len() ==> #[trigger] links@[k].1 >= lo,
                forall|k: int| 0 <= k < lo && k < old(nodes)@.len() ==> nodes@[k] == old(nodes)@[k],
                forall|k: int|
                    0 <= k < old(nodes)@.len() ==> nodes@[k].name == old(nodes)@[k].name && nodes@[k].file
                        == old(nodes)@[k].file && nodes@[k].parent_ref == old(nodes)@[k].parent_ref,
                i < links@.len(),
                s0 == spec_nodes(old(nodes)@),
                lv == links_view(links@),
                j <= links@.len(),
                spec_nodes(nodes@) == crate::project::spec::link_row(
                    crate::project::spec::link_rows(s0, lv, i as nat),
                    lv,
                    i as int,
                    j as nat,
                ),
            decreases links@.len() - j,
        {
            assert(links_view(links@)[i as int].1 == links@[i as int].1);
            assert(links_view(links@)[j as int].1 == links@[j as int].1);
            assert(lv[i as int].0 == links@[i as int].0@);
            assert(lv[j as int].0 == links@[j as int].0@);
            if links[i].0 != links[j].0 {
                assert(links@[i as int].1 >= lo);
                link_sibling(nodes, links[i].1, links[j].0.clone(), links[j].1);
            }
            j = j + 1;
        }
        assert(lv.len() == links@.len());
        i = i + 1;
    }
}

/// Where adding the first `i` entries of a directory fails, adding them
/// all fails the same way.
proof fn lemma_dir_entries_err(ns: Seq<SpecNode>, dir: usize, entries: Seq<SourceEntry>, i: int)
    requires
        0 <= i <= entries.len(),
        add_dir_entries(ns, dir, entries.take(i)) is Err,
    ensures
        add_dir_entries(ns, dir, entries) == add_dir_entries(ns, dir, entries.take(i)),
    decreases entries.len() - i,
{
    if i < entries.len() {
        assert(entries.take(i + 1).drop_last() =~= entries.take(i));
        lemma_dir_entries_err(ns, dir, entries, i + 1);
    } else {
        assert(entries.take(i) =~= entries);
    }
}

/// A directory and, in it, its source files and directories: each file
/// of Ferrum source or bindings a node, each directory a node of its own,
/// a package file made for a directory without one, and the nodes of the
/// directory linked to each other as siblings. Gives the directory's
/// position.
fn compile_dir(
    nodes: &mut Vec<FerrumModNode>,
    name: String,
    path: String,
    entries: Vec<SourceEntry>,
    parent: Option<usize>,
) -> (r: Result<usize, CompileError>)
    requires
        nodes_wf(old(nodes)@),
        parent matches Some(p) ==> p < old(nodes)@.len(),
    ensures
        nodes_wf(final(nodes)@),
        final(nodes)@.len() >= old(nodes)@.len(),
        forall|k: int| 0 <= k < old(nodes)@.len() ==> final(nodes)@[k] == old(nodes)@[k],
        r matches Ok(id) ==> id == old(nodes)@.len() && id < final(nodes)@.len() && final(nodes)@[id as int].name == name
            && final(nodes)@[id as int].file is Dir && final(nodes)@[id as int].parent_ref == parent,
        match dir_nodes(spec_nodes(old(nodes)@), name@, path@, entries@, parent) {
            Ok(ns) => r is Ok && spec_nodes(final(nodes)@) == ns,
            Err(e) => r matches Err(ce) && build_err(ce) == Some(e),
        },
    decreases entries,
{
    if nodes.len() == usize::MAX {
        return Err(CompileError::TooManyFiles);
    }
    let ghost n0 = nodes@;
    let ghost name_v = name@;
    let ghost path_v = path@;
    let ghost all_entries = entries@;
    let empty_links: Vec<(String, usize)> = Vec::new();
    let dir_node = FerrumModNode::new(name, path, FerrumModNodeFile::Dir(empty_links));
    assert(links_view(dir_node.sibling_refs@) =~= Seq::empty());
    assert(spec_node(dir_node).children =~= Seq::empty());
    assert(spec_node(dir_node) == lone_node(name_v, path_v, None, None));
    let dir_id = add_node(nodes, dir_node, parent);
    let ghost n1 = spec_nodes(nodes@);
    assert(n1 == spec_nodes(n0).push(lone_node(name_v, path_v, None, parent)));
    let mut children: Vec<(String, usize)> = Vec::new();
    let mut seen_pkg = false;
    let pkg = String::from_str("_pkg");
    proof {
        reveal_strlit("_pkg");
    }
    let ghost entries_seq = entries@;
    assert(entries_seq.take(0) =~= Seq::<SourceEntry>::empty());
    assert(links_view(children@) =~= Seq::empty());
    for entry in it: entries
        invariant
            it.seq() == entries_seq,
            entries_seq == entries@,
            nodes_wf(nodes@),
            dir_id < nodes@.len(),
            dir_id == n0.len(),
            forall|k: int| 0 <= k < n0.len() ==> nodes@[k] == n0[k],
            nodes@[dir_id as int].name == name,
            nodes@[dir_id as int].parent_ref == parent,
            nodes@[dir_id as int].file is Dir,
            n0 == old(nodes)@,
            links_in(links_view(children@), nodes@.len()),
            forall|k: int| 0 <= k < children@.len() ==> #[trigger] children@[k].1 > dir_id,
            nodes@[dir_id as int].path@ == path_v,
            pkg@ == pkg_name(),
            all_entries == entries_seq,
            n1 == spec_nodes(n0).push(lone_node(name_v, path_v, None, parent)),
            n0.len() < usize::MAX,
            name_v == name@,
            path_v == path@,
            add_dir_entries(n1, dir_id, entries_seq.take(it.index() as int)) == Ok::<_, BuildError>(
                (spec_nodes(nodes@), links_view(children@), seen_pkg),
            ),
    {
        assert(decreases_to!(entries => entries@[it.index() as int])) by {
            assert(decreases_to!(entries => entries@));
        }
        let ghost i = it.index() as int;
        let ghost e_g = entry;
        let ghost st_ns = spec_nodes(nodes@);
        let ghost st_links = links_view(children@);
        let ghost st_seen = seen_pkg;
        proof {
            let t1 = entries_seq.take(i + 1);
            assert(t1.drop_last() =~= entries_seq.take(i));
            assert(t1[t1.len() - 1] == e_g);
            assert(add_dir_entries(n1, dir_id, t1) == add_dir_entry(st_ns, st_links, st_seen, dir_id, e_g));
        }
        match entry {
            SourceEntry::Dir { name: dname, path: dpath, entries: sub } => {
                let ghost before = nodes@;
                let id = match compile_dir(nodes, dname.clone(), dpath, sub, Some(dir_id)) {
                    Ok(id) => id,
                    Err(e) => {
                        proof {
                            lemma_dir_entries_err(n1, dir_id, entries_seq, i + 1);
                            let err = build_err(e)->Some_0;
                            assert(add_dir_entry(st_ns, st_links, st_seen, dir_id, e_g) == Err::<(Seq<SpecNode>, crate::tree::SpecLinks, bool), BuildError>(err));
                            assert(add_dir_entries(n1, dir_id, entries_seq) == Err::<(Seq<SpecNode>, crate::tree::SpecLinks, bool), BuildError>(err));
                            assert(dir_nodes(spec_nodes(n0), name_v, path_v, entries_seq, parent) == Err::<Seq<SpecNode>, BuildError>(err));
                        }
                        return Err(e);
                    },
                };
                proof {
                    assert(nodes@[dir_id as int] == before[dir_id as int]);
                    lemma_link_insert_in(links_view(children@), dname@, id, nodes@.len());
                }
                let ghost cb = children@;
                insert_link(&mut children, dname, id);
                proof {
                    lemma_links_above(cb, children@, dname@, id, dir_id as nat);
                }
            },
            SourceEntry::File(f) => {
                match exec_file_kind(&f.file_name) {
                    None => {},
                    Some((mname, kind)) => {
                        if mname == pkg {
                            match kind {
                                FileType::Ferrum => {
                                    seen_pkg = true;
                                },
                                FileType::LocalRustBind => {
                                    proof {
                                        lemma_dir_entries_err(n1, dir_id, entries_seq, i + 1);
                                    }
                                    return Err(CompileError::InvalidFile(f.path));
                                },
                            }
                        }
                        let node = match kind {
                            FileType::Ferrum => compile_to_ferrum_mod_node(f.content, mname.clone(), f.path),
                            FileType::LocalRustBind => compile_to_rust_bindings_node(f.content, mname.clone(), f.path),
                        };
                        let node = match node {
                            Ok(n) => n,
                            Err(e) => {
                                proof {
                                    lemma_dir_entries_err(n1, dir_id, entries_seq, i + 1);
                                    let err = build_err(e)->Some_0;
                                    assert(add_dir_entry(st_ns, st_links, st_seen, dir_id, e_g) == Err::<(Seq<SpecNode>, crate::tree::SpecLinks, bool), BuildError>(err));
                                    assert(add_dir_entries(n1, dir_id, entries_seq) == Err::<(Seq<SpecNode>, crate::tree::SpecLinks, bool), BuildError>(err));
                            assert(dir_nodes(spec_nodes(n0), name_v, path_v, entries_seq, parent) == Err::<Seq<SpecNode>, BuildError>(err));
                                }
                                return Err(e);
                            },
                        };
                        if nodes.len() == usize::MAX {
                            proof {
                                lemma_dir_entries_err(n1, dir_id, entries_seq, i + 1);
                                assert(add_dir_entry(st_ns, st_links, st_seen, dir_id, e_g) == Err::<(Seq<SpecNode>, crate::tree::SpecLinks, bool), BuildError>(BuildError::TooManyFiles));
                                assert(add_dir_entries(n1, dir_id, entries_seq) == Err::<(Seq<SpecNode>, crate::tree::SpecLinks, bool), BuildError>(BuildError::TooManyFiles));
                            }
                            return Err(CompileError::TooManyFiles);
                        }
                        assert(links_view(node.sibling_refs@) =~= Seq::empty());
                        let ghost before = nodes@;
                        let id = add_node(nodes, node, Some(dir_id));
                        proof {
                            lemma_link_insert_in(links_view(children@), mname@, id, nodes@.len());
                        }
                        let ghost cb = children@;
                        insert_link(&mut children, mname, id);
                        proof {
                            lemma_links_above(cb, children@, mname@, id, dir_id as nat);
                        }
                    },
                }
            },
        }
    }
    assert(entries_seq.take(entries_seq.len() as int) =~= entries_seq);
    if !seen_pkg {
        let pkg_file = generated_pkg_file(&children);
        let pkg_file_text = String::from_str("_pkg.fe");
        proof {
            reveal_strlit("_pkg.fe");
        }
        let pkg_path = join_path(&nodes[dir_id].path, &pkg_file_text);
        assert(pkg_path@ =~= path_v + pkg_file_name());
        if nodes.len() == usize::MAX {
            return Err(CompileError::TooManyFiles);
        }
        let ghost before = nodes@;
        let pkg_node = FerrumModNode::new(pkg.clone(), pkg_path, FerrumModNodeFile::File(pkg_file));
        assert(links_view(pkg_node.sibling_refs@) =~= Seq::empty());
        let id = add_node(nodes, pkg_node, None);
        proof {
            lemma_link_insert_in(links_view(children@), pkg@, id, nodes@.len());
        }
        let ghost cb = children@;
        insert_link(&mut children, pkg, id);
        proof {
            lemma_links_above(cb, children@, pkg@, id, dir_id as nat);
        }
    }
    link_all_siblings(nodes, &children, Ghost((dir_id + 1) as nat));
    set_children(nodes, dir_id, children);
    Ok(dir_id)
}

/// Where adding the first `i` entries beside the entry file fails, adding
/// them all fails the same way.
proof fn lemma_top_entries_err(ns: Seq<SpecNode>, root_name: Seq<char>, entries: Seq<SourceEntry>, i: int)
    requires
        0 <= i <= entries.len(),
        add_top_entries(ns, root_name, entries.take(i)) is Err,
    ensures
        add_top_entries(ns, root_name, entries) == add_top_entries(ns, root_name, entries.take(i)),
    decreases entries.len() - i,
{
    if i < entries.len() {
        assert(entries.take(i + 1).drop_last() =~= entries.take(i));
        lemma_top_entries_err(ns, root_name, entries, i + 1);
    } else {
        assert(entries.take(i) =~= entries);
    }
}

/// Adds the entries beside the entry file, node 0 named `name` (see
/// `add_top_entries`), and gives the entry's links to them.
fn compile_top_entries(nodes: &mut Vec<FerrumModNode>, name: &String, entries: Vec<SourceEntry>) -> (r: Result<
    Vec<(String, usize)>,
    CompileError,
>)
    requires
        nodes_wf(old(nodes)@),
        0 < old(nodes)@.len(),
    ensures
        nodes_wf(final(nodes)@),
        0 < final(nodes)@.len(),
        final(nodes)@[0].name == old(nodes)@[0].name,
        final(nodes)@[0].file == old(nodes)@[0].file,
        final(nodes)@[0].parent_ref == old(nodes)@[0].parent_ref,
        r matches Ok(top) ==> links_in(links_view(top@), final(nodes)@.len()),
        match add_top_entries(spec_nodes(old(nodes)@), name@, entries@) {
            Ok((ns, top)) => r matches Ok(t) && spec_nodes(final(nodes)@) == ns && links_view(t@) == top,
            Err(e) => r matches Err(ce) && build_err(ce) == Some(e),
        },
{
    let root: usize = 0;
    let ghost n0s = spec_nodes(nodes@);
    let ghost n0 = nodes@;
    let mut top: Vec<(String, usize)> = Vec::new();
    let ghost entries_seq = entries@;
    assert(entries_seq.take(0) =~= Seq::<SourceEntry>::empty());
    assert(links_view(top@) =~= Seq::empty());
    for e in it: entries
        invariant
            it.seq() == entries_seq,
            entries_seq == entries@,
            nodes_wf(nodes@),
            root == 0,
            0 < nodes@.len(),
            nodes@[0].name == n0[0].name,
            nodes@[0].file == n0[0].file,
            nodes@[0].parent_ref == n0[0].parent_ref,
            n0 == old(nodes)@,
            n0s == spec_nodes(n0),
            links_in(links_view(top@), nodes@.len()),
            add_top_entries(n0s, name@, entries_seq.take(it.index() as int)) == Ok::<_, BuildError>(
                (spec_nodes(nodes@), links_view(top@)),
            ),
    {
        let ghost i = it.index() as int;
        let ghost e_g = e;
        let ghost st_ns = spec_nodes(nodes@);
        let ghost st_top = links_view(top@);
        proof {
            let t1 = entries_seq.take(i + 1);
            assert(t1.drop_last() =~= entries_seq.take(i));
            assert(t1[t1.len() - 1] == e_g);
            assert(add_top_entries(n0s, name@, t1) == add_top_entry(st_ns, st_top, name@, e_g));
        }
        match e {
            SourceEntry::Dir { name: dname, path: dpath, entries: sub } => {
                if !starts_with_dot(&dname) {
                    let id = match compile_dir(nodes, dname.clone(), dpath, sub, None) {
                        Ok(id) => id,
                        Err(e) => {
                            proof {
                                lemma_top_entries_err(n0s, name@, entries_seq, i + 1);
                                let err = build_err(e)->Some_0;
                                assert(add_top_entry(st_ns, st_top, name@, e_g) == Err::<(Seq<SpecNode>, crate::tree::SpecLinks), BuildError>(err));
                            }
                            return Err(e);
                        },
                    };
                    link_sibling(nodes, id, name.clone(), root);
                    proof {
                        lemma_link_insert_in(links_view(top@), dname@, id, nodes@.len());
                    }
                    insert_link(&mut top, dname, id);
                }
            },
            SourceEntry::File(f) => {
                if !starts_with_dot(&f.file_name) {
                    match exec_file_kind(&f.file_name) {
                        None => {},
                        Some((mname, kind)) => {
                            if mname != *name {
                                let node = match kind {
                                    FileType::Ferrum => compile_to_ferrum_mod_node(f.content, mname.clone(), f.path),
                                    FileType::LocalRustBind => compile_to_rust_bindings_node(
                                        f.content,
                                        mname.clone(),
                                        f.path,
                                    ),
                                };
                                let node = match node {
                                    Ok(n) => n,
                                    Err(e) => {
                                        proof {
                                            lemma_top_entries_err(n0s, name@, entries_seq, i + 1);
                                            let err = build_err(e)->Some_0;
                                            assert(add_top_entry(st_ns, st_top, name@, e_g) == Err::<(Seq<SpecNode>, crate::tree::SpecLinks), BuildError>(err));
                                        }
                                        return Err(e);
                                    },
                                };
                                if nodes.len() == usize::MAX {
                                    proof {
                                        lemma_top_entries_err(n0s, name@, entries_seq, i + 1);
                                    }
                                    return Err(CompileError::TooManyFiles);
                                }
                                assert(links_view(node.sibling_refs@) =~= Seq::empty());
                                let id = add_node(nodes, node, None);
                                link_sibling(nodes, id, name.clone(), root);
                                proof {
                                    lemma_link_insert_in(links_view(top@), mname@, id, nodes@.len());
                                }
                                insert_link(&mut top, mname, id);
                            }
                        },
                    }
                }
            },
        }
    }
    assert(entries_seq.take(entries_seq.len() as int) =~= entries_seq);
    Ok(top)
}

/// The module tree of a project: the entry file's node at position 0,
/// named by the entry file's stem; beside it, as its siblings, each
/// directory (not hidden) and each Ferrum or bindings file (not hidden, not
/// named as the entry) of the entry's directory, in `entries`, each linked
/// back to the entry and to each other (see `project_nodes`); then the
/// scopes of all files filled in (see `fill_project_node_scope`). Fails as
/// `project_nodes` says, or where the scopes cannot be filled in (see
/// `passes_fail`).
pub fn compile_to_ferrum_project_ast(entry: SourceFile, entries: Vec<SourceEntry>) -> (r: Result<
    ModTree,
    CompileError,
>)
    ensures
        r matches Ok(t) ==> {
            &&& t.wf()
            &&& t.root == 0
            &&& t.shape()[0].name == file_stem(entry.file_name@)
            &&& !t.shape()[0].is_dir
            &&& t.shape()[0].parent is None
        },
        match project_nodes(entry, entries@) {
            Ok(ns) => match r {
                Ok(t) => exists|pre: ModTree, mid: ModTree, vis: Seq<bool>|
                    spec_nodes(pre.nodes@) == ns && pre.shape() == t.shape() && #[trigger] scope_passes(
                        pre,
                        mid,
                        t,
                        vis,
                        0,
                    ),
                Err(e) => e matches CompileError::Scope(se) && exists|pre: ModTree, mid: ModTree|
                    spec_nodes(pre.nodes@) == ns && pre.root == 0 && #[trigger] passes_fail(pre, mid, 0, se),
            },
            Err(e) => r matches Err(ce) && build_err(ce) == Some(e),
        },
{
    let name = exec_file_stem(&entry.file_name);
    let ghost entry_g = entry;
    if chars_of(&name).len() == 0 {
        return Err(CompileError::InvalidFile(entry.path));
    }
    let root_node = match compile_to_ferrum_mod_node(entry.content, name.clone(), entry.path) {
        Ok(n) => n,
        Err(e) => return Err(e),
    };
    let mut nodes: Vec<FerrumModNode> = Vec::new();
    assert(nodes_wf(nodes@)) by {
        assert(tree_shape(nodes@) =~= Seq::empty());
    }
    assert(spec_nodes(nodes@) =~= Seq::empty());
    assert(links_view(root_node.sibling_refs@) =~= Seq::empty());
    let root = add_node(&mut nodes, root_node, None);
    let ghost n0s = spec_nodes(nodes@);
    assert(compiled(entry_g.content@, entry_g.path@, FileType::Ferrum) matches Ok(sf) && n0s =~= seq![
        lone_node(name@, entry_g.path@, Some(sf), None),
    ]);
    let top = match compile_top_entries(&mut nodes, &name, entries) {
        Ok(t) => t,
        Err(e) => return Err(e),
    };
    link_all_siblings(&mut nodes, &top, Ghost(0));
    set_siblings(&mut nodes, root, top);
    let mut tree = ModTree { nodes, root };
    assert(tree.shape()[0] == node_shape(tree.nodes@[0]));
    let ghost pre = tree;
    match fill_project_node_scope(&mut tree) {
        Ok(()) => {},
        Err(e) => {
            proof {
                let mid = choose|mid: ModTree| passes_fail(pre, mid, 0, e);
                assert(passes_fail(pre, mid, 0, e));
            }
            return Err(CompileError::Scope(e));
        },
    }
    let ghost filled = tree;
    match analyze_and_fix(&mut tree) {
        Ok(()) => {},
        Err(e) => return Err(CompileError::Scope(e)),
    }
    proof {
        let (mid, vis) = choose|mid: ModTree, vis: Seq<bool>| scope_passes(pre, mid, filled, vis, 0);
        assert(scope_passes(pre, mid, tree, vis, 0));
    }
    Ok(tree)
}

} // verus!

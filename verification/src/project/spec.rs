//! What building the module tree of a project gives, as mathematical
//! values: the nodes in the order they are added, each with its links.
use vstd::prelude::*;

use crate::lexer::spec::spec_lex;
use crate::parser::ast::FileType;
use crate::parser::err_view;
use crate::parser::spec::{parse_file_s, Parsed, SpecParseError};
use crate::parser::view::{file_view, SpecFileAst};
use crate::project::{file_kind, file_stem, pkg_use_item, CompileError, SourceEntry, SourceFile};
use crate::scope::fill_spec::pkg_name;
use crate::span::{spec_point_span, SpanPoint};
use crate::tree::{link_insert, links_view, FerrumModNode, FerrumModNodeFile, SpecLinks};

verus! {

/// A node of the module tree as a mathematical value: its name, its path,
/// its file (none for a directory), the nodes of a directory, its
/// siblings, and the directory it is in.
pub struct SpecNode {
    pub name: Seq<char>,
    pub path: Seq<char>,
    pub file: Option<SpecFileAst>,
    pub children: SpecLinks,
    pub siblings: SpecLinks,
    pub parent: Option<usize>,
}

/// The view of a node.
pub open spec fn spec_node(n: FerrumModNode) -> SpecNode {
    SpecNode {
        name: n.name@,
        path: n.path@,
        file: match n.file {
            FerrumModNodeFile::File(f) => Some(file_view(f)),
            FerrumModNodeFile::Dir(_) => None,
        },
        children: match n.file {
            FerrumModNodeFile::Dir(c) => links_view(c@),
            FerrumModNodeFile::File(_) => Seq::empty(),
        },
        siblings: links_view(n.sibling_refs@),
        parent: n.parent_ref,
    }
}

/// The views of all the nodes.
pub open spec fn spec_nodes(nodes: Seq<FerrumModNode>) -> Seq<SpecNode> {
    nodes.map_values(|n: FerrumModNode| spec_node(n))
}

/// Why a project cannot be built into a module tree, as a mathematical
/// value; the paths are those of the files at fault.
pub enum BuildError {
    Lex(Seq<char>),
    Parse(Seq<char>, SpecParseError),
    InvalidFile(Seq<char>),
    TooManyFiles,
}

/// The build error a compile error is, if it is one (a scope error is
/// not).
pub open spec fn build_err(e: CompileError) -> Option<BuildError> {
    match e {
        CompileError::Lex(p) => Some(BuildError::Lex(p@)),
        CompileError::Parse(p, e) => Some(BuildError::Parse(p@, err_view(e))),
        CompileError::InvalidFile(p) => Some(BuildError::InvalidFile(p@)),
        CompileError::TooManyFiles => Some(BuildError::TooManyFiles),
        CompileError::Scope(_) => None,
    }
}

/// The file a text gives: lexed, then parsed as Ferrum source or as
/// bindings. Lexing fails, beside on text the lexer refuses, where the
/// text or its tokens are too many to count; parsing fails with the
/// parser's error, or `Unsupported` where it cannot go on.
pub open spec fn compiled(content: Seq<char>, path: Seq<char>, kind: FileType) -> Result<SpecFileAst, BuildError> {
    match spec_lex(content) {
        Some(ts) => if content.len() >= usize::MAX || ts.len() >= usize::MAX {
            Err(BuildError::Lex(path))
        } else {
            match parse_file_s(ts, 0, kind == FileType::Ferrum) {
                Parsed::Done(sf, _) => Ok(sf),
                Parsed::Fail(e, _) => Err(BuildError::Parse(path, e)),
                Parsed::Stuck => Err(BuildError::Parse(path, SpecParseError::Unsupported)),
            }
        },
        None => Err(BuildError::Lex(path)),
    }
}

/// A node without links.
pub open spec fn lone_node(name: Seq<char>, path: Seq<char>, file: Option<SpecFileAst>, parent: Option<usize>) -> SpecNode {
    SpecNode { name, path, file, children: Seq::empty(), siblings: Seq::empty(), parent }
}

/// The package file made for a directory whose nodes are `links`: a
/// `pub use` of each, in order.
pub open spec fn pkg_file(links: SpecLinks) -> SpecFileAst {
    SpecFileAst {
        file_type: FileType::Ferrum,
        items: Seq::new(links.len(), |k: int| pkg_use_item(links[k].0)),
        pub_api: Seq::empty(),
        scope: Seq::empty(),
        span: spec_point_span(SpanPoint { line: 0, column: 0 }),
    }
}

/// The text `/_pkg.fe`.
pub open spec fn pkg_file_name() -> Seq<char> {
    seq!['/', '_', 'p', 'k', 'g', '.', 'f', 'e']
}

/// Node `from` given the sibling link `name` to node `to`.
pub open spec fn link_one(ns: Seq<SpecNode>, from: int, name: Seq<char>, to: usize) -> Seq<SpecNode> {
    ns.update(from, SpecNode { siblings: link_insert(ns[from].siblings, name, to), ..ns[from] })
}

/// The node of link `i` given, in order, the first `j` links of another
/// name as siblings.
pub open spec fn link_row(ns: Seq<SpecNode>, links: SpecLinks, i: int, j: nat) -> Seq<SpecNode>
    decreases j,
{
    if j == 0 {
        ns
    } else {
        let prev = link_row(ns, links, i, (j - 1) as nat);
        if links[i].0 != links[j - 1].0 {
            link_one(prev, links[i].1 as int, links[j - 1].0, links[j - 1].1)
        } else {
            prev
        }
    }
}

/// The nodes of the first `i` links each given the others as siblings.
pub open spec fn link_rows(ns: Seq<SpecNode>, links: SpecLinks, i: nat) -> Seq<SpecNode>
    decreases i,
{
    if i == 0 {
        ns
    } else {
        link_row(link_rows(ns, links, (i - 1) as nat), links, i - 1, links.len())
    }
}

/// The nodes of `links` each given all the others, by name, as siblings.
pub open spec fn link_all(ns: Seq<SpecNode>, links: SpecLinks) -> Seq<SpecNode> {
    link_rows(ns, links, links.len())
}

/// A directory built after the nodes `ns`, at position `ns.len()`: the
/// directory, then its entries in order (see `add_dir_entries`), then a
/// package file if none was among them; its nodes are each other's
/// siblings and the directory's children.
pub open spec fn dir_nodes(
    ns: Seq<SpecNode>,
    name: Seq<char>,
    path: Seq<char>,
    entries: Seq<SourceEntry>,
    parent: Option<usize>,
) -> Result<Seq<SpecNode>, BuildError>
    decreases entries, 2nat,
{
    if ns.len() >= usize::MAX {
        Err(BuildError::TooManyFiles)
    } else {
        let id = ns.len() as usize;
        match add_dir_entries(ns.push(lone_node(name, path, None, parent)), id, entries) {
            Err(e) => Err(e),
            Ok((n2, links, seen_pkg)) => {
                let with_pkg = if seen_pkg {
                    Ok((n2, links))
                } else if n2.len() >= usize::MAX {
                    Err(BuildError::TooManyFiles)
                } else {
                    Ok(
                        (
                            n2.push(lone_node(pkg_name(), path + pkg_file_name(), Some(pkg_file(links)), None)),
                            link_insert(links, pkg_name(), n2.len() as usize),
                        ),
                    )
                };
                match with_pkg {
                    Err(e) => Err(e),
                    Ok((n3, links3)) => {
                        let n4 = link_all(n3, links3);
                        Ok(n4.update(id as int, SpecNode { children: links3, ..n4[id as int] }))
                    },
                }
            },
        }
    }
}

/// The entries of directory `dir` added in order after the nodes `ns`:
/// the nodes, the directory's links, and whether a package file was met.
pub open spec fn add_dir_entries(ns: Seq<SpecNode>, dir: usize, entries: Seq<SourceEntry>) -> Result<
    (Seq<SpecNode>, SpecLinks, bool),
    BuildError,
>
    decreases entries, 1nat,
{
    if entries.len() == 0 {
        Ok((ns, Seq::empty(), false))
    } else {
        match add_dir_entries(ns, dir, entries.drop_last()) {
            Err(e) => Err(e),
            Ok((n1, links, seen_pkg)) => add_dir_entry(n1, links, seen_pkg, dir, entries[entries.len() - 1]),
        }
    }
}

/// One entry of directory `dir` added: a directory is built in it; a
/// source file is compiled into a node of its module name (a package file
/// must be Ferrum source); any other file is left out. The node is linked
/// from the directory by its name.
pub open spec fn add_dir_entry(ns: Seq<SpecNode>, links: SpecLinks, seen_pkg: bool, dir: usize, e: SourceEntry) -> Result<
    (Seq<SpecNode>, SpecLinks, bool),
    BuildError,
>
    decreases e, 0nat,
{
    match e {
        SourceEntry::Dir { name, path, entries } => {
            proof {
                assert(decreases_to!(entries => entries@));
            }
            match dir_nodes(ns, name@, path@, entries@, Some(dir)) {
                Err(err) => Err(err),
                Ok(n2) => Ok((n2, link_insert(links, name@, ns.len() as usize), seen_pkg)),
            }
        },
        SourceEntry::File(f) => match file_kind(f.file_name@) {
            None => Ok((ns, links, seen_pkg)),
            Some((mname, kind)) => if mname == pkg_name() && kind == FileType::LocalRustBind {
                Err(BuildError::InvalidFile(f.path@))
            } else {
                match compiled(f.content@, f.path@, kind) {
                    Err(err) => Err(err),
                    Ok(sf) => if ns.len() >= usize::MAX {
                        Err(BuildError::TooManyFiles)
                    } else {
                        Ok(
                            (
                                ns.push(lone_node(mname, f.path@, Some(sf), Some(dir))),
                                link_insert(links, mname, ns.len() as usize),
                                seen_pkg || mname == pkg_name(),
                            ),
                        )
                    },
                }
            },
        },
    }
}

/// Whether a name starts with `.`.
pub open spec fn is_hidden(name: Seq<char>) -> bool {
    name.len() > 0 && name[0] == '.'
}

/// The entries beside the entry file (named `root_name`) added in order
/// after the nodes `ns`: each directory (not hidden) built, each source
/// file (not hidden, not of the entry's name) compiled, each linked back
/// to the entry; the entry's links so far.
pub open spec fn add_top_entries(ns: Seq<SpecNode>, root_name: Seq<char>, entries: Seq<SourceEntry>) -> Result<
    (Seq<SpecNode>, SpecLinks),
    BuildError,
>
    decreases entries.len(),
{
    if entries.len() == 0 {
        Ok((ns, Seq::empty()))
    } else {
        match add_top_entries(ns, root_name, entries.drop_last()) {
            Err(e) => Err(e),
            Ok((n1, top)) => add_top_entry(n1, top, root_name, entries[entries.len() - 1]),
        }
    }
}

/// One entry beside the entry file added (see `add_top_entries`).
pub open spec fn add_top_entry(ns: Seq<SpecNode>, top: SpecLinks, root_name: Seq<char>, e: SourceEntry) -> Result<
    (Seq<SpecNode>, SpecLinks),
    BuildError,
> {
    match e {
        SourceEntry::Dir { name, path, entries } => if is_hidden(name@) {
            Ok((ns, top))
        } else {
            match dir_nodes(ns, name@, path@, entries@, None) {
                Err(err) => Err(err),
                Ok(n2) => Ok((link_one(n2, ns.len() as int, root_name, 0), link_insert(top, name@, ns.len() as usize))),
            }
        },
        SourceEntry::File(f) => if is_hidden(f.file_name@) {
            Ok((ns, top))
        } else {
            match file_kind(f.file_name@) {
                None => Ok((ns, top)),
                Some((mname, kind)) => if mname == root_name {
                    Ok((ns, top))
                } else {
                    match compiled(f.content@, f.path@, kind) {
                        Err(err) => Err(err),
                        Ok(sf) => if ns.len() >= usize::MAX {
                            Err(BuildError::TooManyFiles)
                        } else {
                            Ok(
                                (
                                    link_one(ns.push(lone_node(mname, f.path@, Some(sf), None)), ns.len() as int, root_name, 0),
                                    link_insert(top, mname, ns.len() as usize),
                                ),
                            )
                        },
                    }
                },
            }
        },
    }
}

/// The module tree of a project before its scopes are filled in: the
/// entry file at position 0, named by its stem; then the entries beside
/// it (see `add_top_entries`), each other's siblings, and the entry's.
pub open spec fn project_nodes(entry: SourceFile, entries: Seq<SourceEntry>) -> Result<Seq<SpecNode>, BuildError> {
    let name = file_stem(entry.file_name@);
    if name.len() == 0 {
        Err(BuildError::InvalidFile(entry.path@))
    } else {
        match compiled(entry.content@, entry.path@, FileType::Ferrum) {
            Err(e) => Err(e),
            Ok(sf) => match add_top_entries(seq![lone_node(name, entry.path@, Some(sf), None)], name, entries) {
                Err(e) => Err(e),
                Ok((ns, top)) => {
                    let n2 = link_all(ns, top);
                    Ok(n2.update(0, SpecNode { siblings: top, ..n2[0] }))
                },
            },
        }
    }
}

} // verus!

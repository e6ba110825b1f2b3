//! The module tree of a project: each file or directory is a node, held in
//! an arena and referred to by its position there. A node knows its
//! siblings and parent by position, and a directory its children.
use vstd::prelude::*;

use crate::parser::ast::FerrumFileAst;

verus! {

/// A file or directory of a project.
#[derive(Debug)]
pub struct FerrumModNode {
    /// The node's position in the tree.
    pub id: usize,
    /// The module name: a file's name without its extension, or a
    /// directory's name.
    pub name: String,
    pub path: String,
    pub file: FerrumModNodeFile,
    /// The nodes this one can `use` by name, each with its position.
    pub sibling_refs: Vec<(String, usize)>,
    /// The directory this node is in, if any.
    pub parent_ref: Option<usize>,
}

/// What a node holds: a parsed file, or a directory's children by name.
#[derive(Debug)]
pub enum FerrumModNodeFile {
    File(FerrumFileAst),
    Dir(Vec<(String, usize)>),
}

/// The nodes of a project, and the position of the entry file's node.
#[derive(Debug)]
pub struct ModTree {
    pub nodes: Vec<FerrumModNode>,
    pub root: usize,
}

/// Named links from a node to other nodes.
pub type SpecLinks = Seq<(Seq<char>, usize)>;

/// The shape of a node: what it is called, where it is, and how it is
/// linked, without its file's contents.
pub struct SpecModNode {
    pub id: usize,
    pub name: Seq<char>,
    pub path: Seq<char>,
    pub is_dir: bool,
    pub children: SpecLinks,
    pub siblings: SpecLinks,
    pub parent: Option<usize>,
}

/// The views of named links.
pub open spec fn links_view(v: Seq<(String, usize)>) -> SpecLinks {
    v.map_values(|e: (String, usize)| (e.0@, e.1))
}

/// The shape of a node.
pub open spec fn node_shape(n: FerrumModNode) -> SpecModNode {
    SpecModNode {
        id: n.id,
        name: n.name@,
        path: n.path@,
        is_dir: n.file is Dir,
        children: match n.file {
            FerrumModNodeFile::Dir(c) => links_view(c@),
            FerrumModNodeFile::File(_) => Seq::empty(),
        },
        siblings: links_view(n.sibling_refs@),
        parent: n.parent_ref,
    }
}

/// The shapes of all the nodes.
pub open spec fn tree_shape(nodes: Seq<FerrumModNode>) -> Seq<SpecModNode> {
    nodes.map_values(|n: FerrumModNode| node_shape(n))
}

/// Whether every link of a node leads to a node of the tree.
pub open spec fn links_in(l: SpecLinks, n: nat) -> bool {
    forall|k: int| 0 <= k < l.len() ==> #[trigger] l[k].1 < n
}

/// A well-formed tree: each node is at its own position, its links lead
/// to nodes of the tree, and its parent comes before it.
pub open spec fn shape_wf(s: Seq<SpecModNode>) -> bool {
    forall|i: int|
        0 <= i < s.len() ==> {
            &&& (#[trigger] s[i]).id == i
            &&& links_in(s[i].children, s.len())
            &&& links_in(s[i].siblings, s.len())
            &&& match s[i].parent {
                Some(p) => p < i,
                None => true,
            }
        }
}

impl ModTree {
    /// The shapes of the nodes.
    pub open spec fn shape(&self) -> Seq<SpecModNode> {
        tree_shape(self.nodes@)
    }

    /// A well-formed tree whose root is one of its nodes.
    pub open spec fn wf(&self) -> bool {
        &&& shape_wf(self.shape())
        &&& self.root < self.nodes@.len()
    }
}

/// The position of the first link named `k`, or -1 when there is none.
pub open spec fn link_index(l: SpecLinks, k: Seq<char>) -> int
    decreases l.len(),
{
    if l.len() == 0 {
        -1
    } else if l[0].0 == k {
        0
    } else {
        let r = link_index(l.drop_first(), k);
        if r < 0 {
            -1
        } else {
            r + 1
        }
    }
}

/// The node the first link named `k` leads to.
pub open spec fn link_lookup(l: SpecLinks, k: Seq<char>) -> Option<usize> {
    let i = link_index(l, k);
    if i >= 0 {
        Some(l[i].1)
    } else {
        None
    }
}

/// The links with `k` leading to `v`: the link of that name replaced in
/// place, or a new link at the end.
pub open spec fn link_insert(l: SpecLinks, k: Seq<char>, v: usize) -> SpecLinks {
    let i = link_index(l, k);
    if i >= 0 {
        l.update(i, (k, v))
    } else {
        l.push((k, v))
    }
}

/// `link_index` finds the first link of the name, and -1 means there is
/// none.
pub proof fn lemma_link_index(l: SpecLinks, k: Seq<char>)
    ensures
        -1 <= link_index(l, k) < l.len(),
        link_index(l, k) == -1 <==> forall|j: int| 0 <= j < l.len() ==> l[j].0 != k,
        link_index(l, k) >= 0 ==> l[link_index(l, k)].0 == k,
        forall|j: int| 0 <= j < link_index(l, k) ==> l[j].0 != k,
    decreases l.len(),
{
    if l.len() > 0 && l[0].0 != k {
        lemma_link_index(l.drop_first(), k);
        assert forall|j: int| 1 <= j < l.len() implies l[j].0 == l.drop_first()[j - 1].0 by {}
        if link_index(l, k) == -1 {
            assert forall|j: int| 0 <= j < l.len() implies l[j].0 != k by {
                if j > 0 {
                    assert(l[j].0 == l.drop_first()[j - 1].0);
                }
            }
        }
    }
}

/// The first link of a name is the one `link_index` finds.
pub proof fn lemma_link_is_first(l: SpecLinks, k: Seq<char>, r: int)
    requires
        0 <= r < l.len(),
        l[r].0 == k,
        forall|j: int| 0 <= j < r ==> l[j].0 != k,
    ensures
        link_index(l, k) == r,
{
    lemma_link_index(l, k);
}

/// The node a link named `name` leads to, if any.
pub fn find_link(links: &Vec<(String, usize)>, name: &String) -> (r: Option<usize>)
    ensures
        r == link_lookup(links_view(links@), name@),
{
    let ghost l = links_view(links@);
    let mut i: usize = 0;
    while i < links.len()
        invariant
            i <= links@.len(),
            l == links_view(links@),
            forall|j: int| 0 <= j < i ==> l[j].0 != name@,
        decreases links@.len() - i,
    {
        if links[i].0 == *name {
            proof {
                lemma_link_is_first(l, name@, i as int);
            }
            return Some(links[i].1);
        }
        i = i + 1;
    }
    proof {
        lemma_link_index(l, name@);
    }
    None
}

/// Makes the link named `name` lead to `id`, replacing the link of that
/// name if there is one.
pub fn insert_link(links: &mut Vec<(String, usize)>, name: String, id: usize)
    ensures
        links_view(final(links)@) == link_insert(links_view(old(links)@), name@, id),
{
    let ghost l = links_view(links@);
    let ghost k = name@;
    let mut i: usize = 0;
    while i < links.len()
        invariant
            i <= links@.len(),
            l == links_view(links@),
            k == name@,
            links@ == old(links)@,
            forall|j: int| 0 <= j < i ==> l[j].0 != k,
        decreases links@.len() - i,
    {
        if links[i].0 == name {
            proof {
                lemma_link_is_first(l, k, i as int);
            }
            links.set(i, (name, id));
            assert(links_view(links@) =~= l.update(i as int, (k, id)));
            return;
        }
        i = i + 1;
    }
    proof {
        lemma_link_index(l, k);
    }
    links.push((name, id));
    assert(links_view(links@) =~= l.push((k, id)));
}

/// The node a path of `~/` starts from: the topmost directory above `i`,
/// or `i` itself.
pub open spec fn top_ancestor(s: Seq<SpecModNode>, i: int) -> int
    decreases i,
{
    if 0 <= i < s.len() {
        match s[i].parent {
            Some(p) => if p < i {
                top_ancestor(s, p as int)
            } else {
                i
            },
            None => i,
        }
    } else {
        i
    }
}

} // verus!

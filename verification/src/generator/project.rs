//! The generated text of a whole Rust project: one text per file, in the
//! shape of the project's modules.
use vstd::prelude::*;

use crate::generator::codegen::{gen_rs_for_file, Generator};
use crate::generator::rust_ast::{RustModNode, RustModNodeFile, RustProject};
use crate::generator::spec::{items_ok, rs_file};
use vstd::string::StringExecFns;

verus! {

/// The generated project: the main file and the modules beside it.
#[derive(Debug)]
pub struct GenProject {
    pub main_file: GenFile,
    pub siblings: Vec<GenNode>,
}

/// A generated module: a file or a directory.
#[derive(Debug)]
pub enum GenNode {
    File(GenFile),
    Dir(GenDir),
}

/// A generated file: its module name and its code.
#[derive(Debug)]
pub struct GenFile {
    pub name: String,
    pub code: String,
}

/// A generated directory: its name and its modules.
#[derive(Debug)]
pub struct GenDir {
    pub name: String,
    pub files: Vec<GenNode>,
}

/// A generated module as a mathematical value.
pub enum SpecGenNode {
    File { name: Seq<char>, code: Seq<char> },
    Dir { name: Seq<char>, files: Seq<SpecGenNode> },
}

/// The view of a generated module.
pub open spec fn gen_node_view(n: GenNode) -> SpecGenNode
    decreases n,
{
    match n {
        GenNode::File(f) => SpecGenNode::File { name: f.name@, code: f.code@ },
        GenNode::Dir(d) => SpecGenNode::Dir {
            name: d.name@,
            files: Seq::new(
                d.files@.len(),
                |k: int|
                    if 0 <= k < d.files@.len() {
                        gen_node_view(d.files@[k])
                    } else {
                        SpecGenNode::File { name: Seq::empty(), code: Seq::empty() }
                    },
            ),
        },
    }
}

/// The module generated for a Rust module: a file's code, or a directory
/// of the modules generated for its nodes, in order.
pub open spec fn expected_node(m: RustModNode) -> SpecGenNode
    decreases m,
{
    match m.file {
        RustModNodeFile::File(f) => SpecGenNode::File { name: m.name@, code: rs_file(0, f.items@) },
        RustModNodeFile::Dir(nodes) => SpecGenNode::Dir {
            name: m.name@,
            files: Seq::new(
                nodes@.len(),
                |k: int|
                    if 0 <= k < nodes@.len() {
                        expected_node(nodes@[k].1)
                    } else {
                        SpecGenNode::File { name: Seq::empty(), code: Seq::empty() }
                    },
            ),
        },
    }
}

/// A module the generator handles: each of its files does.
pub open spec fn node_ok(m: RustModNode) -> bool
    decreases m,
{
    match m.file {
        RustModNodeFile::File(f) => items_ok(0, f.items@),
        RustModNodeFile::Dir(nodes) => forall|k: int|
            0 <= k < nodes@.len() ==> #[trigger] node_ok_at(nodes@, k) && node_ok(nodes@[k].1),
    }
}

/// A position of a sequence of named modules (a trigger for `node_ok`).
pub open spec fn node_ok_at(nodes: Seq<(String, RustModNode)>, k: int) -> bool {
    0 <= k < nodes.len()
}

/// A project the generator handles: its main file and each module does.
pub open spec fn project_ok(p: RustProject) -> bool {
    &&& items_ok(0, p.main_file.items@)
    &&& forall|k: int| 0 <= k < p.siblings@.len() ==> node_ok(#[trigger] p.siblings@[k].1)
}

/// The module generated for a Rust module (see `expected_node`).
fn rec_generate_rust_code(node: RustModNode) -> (g: GenNode)
    requires
        node_ok(node),
    ensures
        gen_node_view(g) == expected_node(node),
    decreases node,
{
    let ghost whole = node;
    match node.file {
        RustModNodeFile::File(file) => {
            let mut generator = Generator::new();
            let rs = gen_rs_for_file(&mut generator, file);
            GenNode::File(GenFile { name: node.name, code: rs })
        },
        RustModNodeFile::Dir(nodes) => {
            let ghost ns = nodes@;
            let mut mods: Vec<GenNode> = Vec::new();
            assert forall|k: int| 0 <= k < ns.len() implies decreases_to!(whole => ns[k].1) by {
                assert(decreases_to!(whole => whole.file));
                assert(decreases_to!(whole.file => nodes));
                assert(decreases_to!(nodes => nodes@));
                assert(decreases_to!(nodes@ => nodes@[k]));
            }
            assert forall|k: int| 0 <= k < ns.len() implies node_ok(#[trigger] ns[k].1) by {
                assert(node_ok_at(ns, k));
            }
            for pair in it: nodes
                invariant
                    forall|k: int| 0 <= k < ns.len() ==> decreases_to!(whole => ns[k].1),
                    whole == node,
                    it.seq() == ns,
                    forall|k: int| 0 <= k < ns.len() ==> node_ok(#[trigger] ns[k].1),
                    mods@.len() == it.index(),
                    forall|k: int| 0 <= k < it.index() ==> gen_node_view(#[trigger] mods@[k]) == expected_node(ns[k].1),
            {
                let ghost i = it.index();
                let (_, m) = pair;
                assert(decreases_to!(whole => m));
                let g = rec_generate_rust_code(m);
                mods.push(g);
            }
            let r = GenNode::Dir(GenDir { name: node.name, files: mods });
            assert(gen_node_view(r)->Dir_files =~= expected_node(whole)->Dir_files);
            r
        },
    }
}

/// The code of each file of a Rust project, in the shape of its modules:
/// the main file named `main`, then a module for each sibling, in order.
pub fn generate_rust_code(project: RustProject) -> (g: GenProject)
    requires
        project_ok(project),
    ensures
        g.main_file.name@ == "main"@,
        g.main_file.code@ == rs_file(0, project.main_file.items@),
        g.siblings@.len() == project.siblings@.len(),
        forall|k: int|
            0 <= k < g.siblings@.len() ==> gen_node_view(#[trigger] g.siblings@[k]) == expected_node(
                project.siblings@[k].1,
            ),
{
    let ghost ss = project.siblings@;
    let mut generator = Generator::new();
    let rs = gen_rs_for_file(&mut generator, project.main_file);
    let main_file = GenFile { name: String::from_str("main"), code: rs };
    let mut siblings: Vec<GenNode> = Vec::new();
    for pair in it: project.siblings
        invariant
            it.seq() == ss,
            forall|k: int| 0 <= k < ss.len() ==> node_ok(#[trigger] ss[k].1),
            siblings@.len() == it.index(),
            forall|k: int| 0 <= k < it.index() ==> gen_node_view(#[trigger] siblings@[k]) == expected_node(ss[k].1),
    {
        let (_, sibling_ref) = pair;
        let sibling = rec_generate_rust_code(sibling_ref);
        siblings.push(sibling);
    }
    GenProject { main_file, siblings }
}

/// The generated code of a project ready for a cargo project: the main file
/// declares the runtime module `ferrum` first.
pub fn generate_cargo_project(rust_project: RustProject) -> (g: GenProject)
    requires
        project_ok(rust_project),
    ensures
        g.main_file.name@ == "main"@,
        g.main_file.code@ == "mod ferrum;\n"@ + rs_file(0, rust_project.main_file.items@),
        g.siblings@.len() == rust_project.siblings@.len(),
        forall|k: int|
            0 <= k < g.siblings@.len() ==> gen_node_view(#[trigger] g.siblings@[k]) == expected_node(
                rust_project.siblings@[k].1,
            ),
{
    let mut gen_project = generate_rust_code(rust_project);
    let mut code = String::from_str("mod ferrum;\n");
    code.append(gen_project.main_file.code.as_str());
    gen_project.main_file.code = code;
    gen_project
}

} // verus!

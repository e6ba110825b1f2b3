use oxidize::project::{compile_to_ferrum_project_ast, exec_file_kind, exec_file_stem, CompileError, SourceEntry, SourceFile};
use oxidize::parser::ast::FileType;
use oxidize::scope::resolve::ScopeError;
use oxidize::scope::{ScopeRef, ScopeTable};
use oxidize::tree::{FerrumModNodeFile, ModTree};

fn file(name: &str, content: &str) -> SourceFile {
    SourceFile { file_name: String::from(name), path: format!("src/{}", name), content: String::from(content) }
}

fn names(t: &ScopeTable) -> Vec<String> {
    t.entries.iter().map(|e| e.0.clone()).collect()
}

fn file_of(tree: &ModTree, i: usize) -> &oxidize::parser::ast::FerrumFileAst {
    match &tree.nodes[i].file {
        FerrumModNodeFile::File(f) => f,
        FerrumModNodeFile::Dir(_) => panic!("a file"),
    }
}

fn find(tree: &ModTree, name: &str) -> usize {
    tree.nodes.iter().position(|n| n.name == name).unwrap()
}

fn utils_dir() -> SourceEntry {
    SourceEntry::Dir {
        name: String::from("utils"),
        path: String::from("src/utils"),
        entries: vec![SourceEntry::File(file("greet.fe", "pub fn hi() => x()\n"))],
    }
}

#[test]
fn builds_the_tree_and_fills_the_scopes() {
    let entry = file("main.fe", "use utils\npub fn main() => utils()\n");
    let tree = compile_to_ferrum_project_ast(entry, vec![utils_dir(), SourceEntry::File(file("notes.txt", "x"))]).unwrap();
    assert_eq!(tree.root, 0);
    assert_eq!(tree.nodes[0].name, "main");
    let main = file_of(&tree, 0);
    assert_eq!(names(&main.pub_api), vec!["main"]);
    assert_eq!(names(&main.scope), vec!["utils", "main"]);
    match &main.scope.entries[0].1.scope_ref {
        ScopeRef::Mod(api) => assert_eq!(names(api), vec!["greet"]),
        _ => panic!("utils is a module"),
    }
    let utils = find(&tree, "utils");
    match &tree.nodes[utils].file {
        FerrumModNodeFile::Dir(children) => {
            let child_names: Vec<String> = children.iter().map(|c| c.0.clone()).collect();
            assert_eq!(child_names, vec!["greet", "_pkg"]);
        },
        FerrumModNodeFile::File(_) => panic!("utils is a directory"),
    }
    let pkg = find(&tree, "_pkg");
    assert_eq!(names(&file_of(&tree, pkg).pub_api), vec!["greet"]);
    let greet = find(&tree, "greet");
    assert_eq!(names(&file_of(&tree, greet).pub_api), vec!["hi"]);
    assert_eq!(tree.nodes[greet].parent_ref, Some(utils));
}

#[test]
fn the_entry_file_exports_only_main() {
    let entry = file("main.fe", "pub fn other() => x()\n");
    let r = compile_to_ferrum_project_ast(entry, vec![]);
    assert!(matches!(r, Err(CompileError::Scope(ScopeError::EntryExportsNonMain(t))) if t.literal == "other"));
}

#[test]
fn main_must_be_public() {
    let entry = file("main.fe", "fn main() => x()\n");
    let r = compile_to_ferrum_project_ast(entry, vec![]);
    assert!(matches!(r, Err(CompileError::Scope(ScopeError::MainNotPublic(_)))));
}

#[test]
fn a_use_of_a_missing_module_fails() {
    let entry = file("main.fe", "use nowhere\npub fn main() => x()\n");
    let r = compile_to_ferrum_project_ast(entry, vec![]);
    assert!(matches!(r, Err(CompileError::Scope(ScopeError::DependencyNotFound(t))) if t.literal == "nowhere"));
}

#[test]
fn a_file_cannot_use_itself() {
    let entry = file("main.fe", "use main\n");
    let r = compile_to_ferrum_project_ast(entry, vec![]);
    assert!(matches!(r, Err(CompileError::Scope(ScopeError::CannotUseSelf(p, _))) if p == "src/main.fe"));
}

#[test]
fn siblings_use_each_other() {
    let entry = file("main.fe", "use a\npub fn main() => x()\n");
    let a = SourceEntry::File(file("a.fe", "use b\npub fn fa() => y()\n"));
    let b = SourceEntry::File(file("b.fe", "pub fn fb() => z()\n"));
    let tree = compile_to_ferrum_project_ast(entry, vec![a, b]).unwrap();
    let ai = find(&tree, "a");
    assert_eq!(names(&file_of(&tree, ai).scope), vec!["b", "fa"]);
    assert_eq!(names(&file_of(&tree, 0).scope), vec!["a", "main"]);
}

#[test]
fn an_unlexable_file_is_reported_with_its_path() {
    let entry = file("main.fe", "x // no newline");
    let r = compile_to_ferrum_project_ast(entry, vec![]);
    assert!(matches!(r, Err(CompileError::Lex(p)) if p == "src/main.fe"));
}

#[test]
fn a_package_file_of_bindings_is_invalid() {
    let entry = file("main.fe", "pub fn main() => x()\n");
    let dir = SourceEntry::Dir {
        name: String::from("d"),
        path: String::from("src/d"),
        entries: vec![SourceEntry::File(file("_pkg.rs-fe", "pub fn f() => x()\n"))],
    };
    let r = compile_to_ferrum_project_ast(entry, vec![dir]);
    assert!(matches!(r, Err(CompileError::InvalidFile(p)) if p == "src/_pkg.rs-fe"));
}

#[test]
fn file_names_give_module_names_and_kinds() {
    assert!(matches!(exec_file_kind(&String::from("a.fe")), Some((n, FileType::Ferrum)) if n == "a"));
    assert!(matches!(exec_file_kind(&String::from("b.rs-fe")), Some((n, FileType::LocalRustBind)) if n == "b"));
    assert!(exec_file_kind(&String::from("c.rs")).is_none());
    assert_eq!(exec_file_stem(&String::from("main.fe")), "main");
    assert_eq!(exec_file_stem(&String::from("a.b.fe")), "a.b");
    assert_eq!(exec_file_stem(&String::from(".hidden")), ".hidden");
    assert_eq!(exec_file_stem(&String::from("plain")), "plain");
}

fn sibling_names(tree: &ModTree, i: usize) -> Vec<String> {
    tree.nodes[i].sibling_refs.iter().map(|l| l.0.clone()).collect()
}

#[test]
fn nodes_come_in_order_with_their_links() {
    let entry = file("main.fe", "pub fn main() => x()\n");
    let dir = SourceEntry::Dir {
        name: String::from("d"),
        path: String::from("src/d"),
        entries: vec![
            SourceEntry::File(file("p.fe", "pub fn fp() => x()\n")),
            SourceEntry::File(file("q.fe", "pub fn fq() => x()\n")),
        ],
    };
    let entries = vec![
        SourceEntry::File(file(".hidden.fe", "pub fn h() => x()\n")),
        SourceEntry::File(file("a.fe", "pub fn fa() => x()\n")),
        SourceEntry::File(file("main.rs-fe", "pub fn m() => x()\n")),
        dir,
    ];
    let tree = compile_to_ferrum_project_ast(entry, entries).unwrap();
    let order: Vec<String> = tree.nodes.iter().map(|n| n.name.clone()).collect();
    assert_eq!(order, vec!["main", "a", "d", "p", "q", "_pkg"]);
    assert_eq!(sibling_names(&tree, 0), vec!["a", "d"]);
    assert_eq!(sibling_names(&tree, 1), vec!["main", "d"]);
    assert_eq!(sibling_names(&tree, 2), vec!["main", "a"]);
    assert_eq!(sibling_names(&tree, 3), vec!["q", "_pkg"]);
    assert_eq!(sibling_names(&tree, 5), vec!["p", "q"]);
    assert_eq!(tree.nodes[5].path, "src/d/_pkg.fe");
    assert_eq!(tree.nodes[5].parent_ref, None);
    assert_eq!(tree.nodes[3].parent_ref, Some(2));
    assert_eq!(tree.nodes[2].parent_ref, None);
    assert_eq!(names(&file_of(&tree, 5).pub_api), vec!["p", "q"]);
}

#[test]
fn a_node_no_link_reaches_keeps_empty_scopes() {
    let entry = file("main.fe", "use a\npub fn main() => x()\n");
    let entries = vec![
        SourceEntry::File(file("a.fe", "pub fn fa() => x()\n")),
        SourceEntry::File(file("a.rs-fe", "pub fn fb() => x()\n")),
    ];
    let tree = compile_to_ferrum_project_ast(entry, entries).unwrap();
    assert_eq!(sibling_names(&tree, 0), vec!["a"]);
    assert_eq!(tree.nodes[0].sibling_refs[0].1, 2);
    assert!(file_of(&tree, 1).scope.entries.is_empty());
    assert!(file_of(&tree, 1).pub_api.entries.is_empty());
    assert_eq!(names(&file_of(&tree, 2).scope), vec!["fb"]);
    match &file_of(&tree, 0).scope.entries[0].1.scope_ref {
        ScopeRef::Mod(api) => assert_eq!(names(api), vec!["fb"]),
        _ => panic!("a is a module"),
    }
}

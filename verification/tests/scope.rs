use oxidize::lexer::token::{Keyword, Token, TokenType};
use oxidize::parser::ast::{
    DestructInitUsePattern, UsePattern, UsePatternDestruct, UsePatternNode, UsePatternPath,
};
use oxidize::punctuated::Punctuated;
use oxidize::scope::resolve::{public_only_scope_ref, resolve_use_pattern, ScopeError};
use oxidize::scope::{ScopeRef, ScopeRefNode, ScopeTable};
use oxidize::span::Span;

fn tok(tt: TokenType, text: &str) -> Token {
    Token::new(tt, String::from(text), Span::at(1, 1))
}

fn id(text: &str) -> Token {
    tok(TokenType::Identifier, text)
}

fn var(name: &str, is_public: bool) -> ScopeRefNode {
    ScopeRefNode {
        name: String::from(name),
        is_public,
        scope_ref: ScopeRef::LocalVar { is_const: true, name: String::from(name), known_type: None },
    }
}

fn names(t: &ScopeTable) -> Vec<String> {
    t.entries.iter().map(|e| e.0.clone()).collect()
}

/// `a` (public), `b` (private), `m` (public module with public `c` and
/// private `d`).
fn source() -> ScopeTable {
    let mut inner = ScopeTable::new();
    inner.insert(String::from("c"), var("c", true));
    inner.insert(String::from("d"), var("d", false));
    let mut src = ScopeTable::new();
    src.insert(String::from("a"), var("a", true));
    src.insert(String::from("b"), var("b", false));
    src.insert(
        String::from("m"),
        ScopeRefNode { name: String::from("m"), is_public: true, scope_ref: ScopeRef::Mod(inner) },
    );
    src
}

fn node(p: UsePattern) -> UsePatternNode {
    UsePatternNode { use_pattern: p, span: Span::at(1, 1) }
}

fn path(parent: &str, rhs: UsePattern) -> UsePattern {
    UsePattern::Path(UsePatternPath {
        parent_name: id(parent),
        delim: tok(TokenType::DoubleColon, "::"),
        rhs: Box::new(node(rhs)),
    })
}

#[test]
fn insert_replaces_a_name_in_place_and_get_finds_it() {
    let mut t = ScopeTable::new();
    assert!(t.is_empty());
    t.insert(String::from("x"), var("x", false));
    t.insert(String::from("y"), var("y", false));
    t.insert(String::from("x"), var("x", true));
    assert_eq!(names(&t), vec!["x", "y"]);
    assert!(t.get(&String::from("x")).unwrap().is_public);
    assert!(!t.get(&String::from("y")).unwrap().is_public);
    assert!(t.get(&String::from("z")).is_none());
    assert_eq!(t.find(&String::from("y")), Some(1));
}

#[test]
fn use_of_a_public_name_brings_it() {
    let mut dest = ScopeTable::new();
    let r = resolve_use_pattern(&mut dest, &source(), &node(UsePattern::Id(id("a"))), false);
    assert!(r.is_ok());
    assert_eq!(names(&dest), vec!["a"]);
    let a = dest.get(&String::from("a")).unwrap();
    assert_eq!(a.name, "a");
    assert!(!a.is_public);
}

#[test]
fn use_of_a_private_name_fails() {
    let mut dest = ScopeTable::new();
    let r = resolve_use_pattern(&mut dest, &source(), &node(UsePattern::Id(id("b"))), false);
    assert!(matches!(r, Err(ScopeError::CannotUsePrivate(t, n)) if t.literal == "b" && n.name == "b" && !n.is_public));
}

#[test]
fn use_of_a_missing_name_fails() {
    let mut dest = ScopeTable::new();
    let r = resolve_use_pattern(&mut dest, &source(), &node(UsePattern::Id(id("zz"))), true);
    assert!(matches!(r, Err(ScopeError::InvalidUsePattern(t)) if t.literal == "zz"));
}

#[test]
fn wildcard_brings_every_public_name_and_modules_show_only_public_entries() {
    let mut dest = ScopeTable::new();
    let r = resolve_use_pattern(&mut dest, &source(), &node(UsePattern::Wild(tok(TokenType::Asterisk, "*"))), true);
    assert!(r.is_ok());
    assert_eq!(names(&dest), vec!["a", "m"]);
    assert!(dest.get(&String::from("a")).unwrap().is_public);
    match &dest.get(&String::from("m")).unwrap().scope_ref {
        ScopeRef::Mod(t) => assert_eq!(names(t), vec!["c"]),
        _ => panic!("m is a module"),
    }
}

#[test]
fn path_looks_inside_a_module() {
    let mut dest = ScopeTable::new();
    let r = resolve_use_pattern(&mut dest, &source(), &node(path("m", UsePattern::Id(id("c")))), false);
    assert!(r.is_ok());
    assert_eq!(names(&dest), vec!["c"]);
    let mut dest = ScopeTable::new();
    let r = resolve_use_pattern(&mut dest, &source(), &node(path("m", UsePattern::Id(id("d")))), false);
    assert!(matches!(r, Err(ScopeError::CannotUsePrivate(_, _))));
    let mut dest = ScopeTable::new();
    let r = resolve_use_pattern(&mut dest, &source(), &node(path("a", UsePattern::Id(id("c")))), false);
    assert!(matches!(r, Err(ScopeError::InvalidUsePattern(t)) if t.literal == "a"));
}

#[test]
fn destructuring_with_self_brings_the_module_and_its_names() {
    let mut patterns = Punctuated::new();
    patterns.push(None, Box::new(UsePatternNode { use_pattern: DestructInitUsePattern::Self_(tok(TokenType::Keyword(Keyword::Self_), "self")), span: Span::at(1, 1) }));
    patterns.push(Some(tok(TokenType::Comma, ",")), Box::new(UsePatternNode { use_pattern: DestructInitUsePattern::Id(id("c")), span: Span::at(1, 1) }));
    let destruct = UsePattern::Destruct(UsePatternDestruct {
        open_brace: tok(TokenType::OpenBrace, "{"),
        patterns,
        close_brace: tok(TokenType::CloseBrace, "}"),
    });
    let mut dest = ScopeTable::new();
    let r = resolve_use_pattern(&mut dest, &source(), &node(path("m", destruct)), false);
    assert!(r.is_ok());
    assert_eq!(names(&dest), vec!["m", "c"]);
}

#[test]
fn public_only_keeps_public_entries_and_is_idempotent() {
    let once = public_only_scope_ref(ScopeRef::Mod(source()));
    match &once {
        ScopeRef::Mod(t) => assert_eq!(names(t), vec!["a", "m"]),
        _ => panic!("a module stays a module"),
    }
    let twice = public_only_scope_ref(once);
    match &twice {
        ScopeRef::Mod(t) => assert_eq!(names(t), vec!["a", "m"]),
        _ => panic!("a module stays a module"),
    }
    match public_only_scope_ref(ScopeRef::LocalVar { is_const: false, name: String::from("v"), known_type: None }) {
        ScopeRef::LocalVar { name, .. } => assert_eq!(name, "v"),
        _ => panic!("other references are kept"),
    }
}

#[test]
fn a_refused_use_leaves_the_destination_as_it_was() {
    let mut dest = ScopeTable::new();
    dest.insert(String::from("k"), var("k", true));
    let r = resolve_use_pattern(&mut dest, &source(), &node(UsePattern::Id(id("b"))), true);
    assert!(matches!(r, Err(ScopeError::CannotUsePrivate(_, _))));
    let r = resolve_use_pattern(&mut dest, &source(), &node(path("zz", UsePattern::Id(id("a")))), true);
    assert!(matches!(r, Err(ScopeError::InvalidUsePattern(t)) if t.literal == "zz"));
    assert_eq!(names(&dest), vec!["k"]);
    assert!(dest.get(&String::from("k")).unwrap().is_public);
}

//! The syntax tree of the Rust code a project is turned into.
use vstd::prelude::*;

verus! {

/// A Rust project: the main file, and the modules beside it by name.
#[derive(Debug)]
pub struct RustProject {
    pub main_file: RustFileAst,
    pub siblings: Vec<(String, RustModNode)>,
}

/// A Rust module: a file, or a directory of modules by name.
#[derive(Debug)]
pub struct RustModNode {
    pub name: String,
    pub file: RustModNodeFile,
}

#[derive(Debug)]
pub enum RustModNodeFile {
    File(RustFileAst),
    Dir(Vec<(String, RustModNode)>),
}

/// The items of a Rust file.
#[derive(Debug)]
pub struct RustFileAst {
    pub items: Vec<Item>,
}

#[derive(Debug)]
pub enum Item {
    Use(Use),
    Mod(Mod),
    FnDef(FnDef),
}

/// `pub? use pattern;`
#[derive(Debug)]
pub struct Use {
    pub is_public: bool,
    pub use_pattern: UsePattern,
}

#[derive(Debug)]
pub enum UsePattern {
    Id(String),
    Path(UsePatternPath),
    Wild,
    Destruct(UsePatternDestruct),
}

/// `parent::rhs`
#[derive(Debug)]
pub struct UsePatternPath {
    pub parent: String,
    pub rhs: Box<UsePattern>,
}

/// `{a, b, c}`
#[derive(Debug)]
pub struct UsePatternDestruct {
    pub fields: Vec<UsePattern>,
}

/// `pub? mod name;`
#[derive(Debug)]
pub struct Mod {
    pub is_public: bool,
    pub name: String,
}

/// `pub? fn name(params) -> type { body }`
#[derive(Debug)]
pub struct FnDef {
    pub is_public: bool,
    pub name: String,
    pub params: Vec<FnDefParam>,
    pub return_type: Option<Type>,
    pub body: Vec<Statement>,
}

#[derive(Debug)]
pub struct FnDefParam {
    pub name: String,
    pub param_type: Type,
}

#[derive(Debug)]
pub enum Type {
    FeStr,
    SharedRef(Box<Type>),
    MutRef(Box<Type>),
}

#[derive(Debug)]
pub enum Statement {
    Item(Item),
    Expr(Expr),
    Decl(Decl),
    Assign(Assign),
}

/// `let mut? pattern: type`
#[derive(Debug)]
pub struct Decl {
    pub is_const: bool,
    pub decl_pattern: DeclPattern,
    pub explicit_type: Option<Type>,
}

#[derive(Debug)]
pub enum DeclPattern {
    Id(String),
}

/// `lhs = rhs`
#[derive(Debug)]
pub struct Assign {
    pub lhs: Box<Statement>,
    pub assign_type: AssignType,
    pub rhs: Expr,
}

#[derive(Debug)]
pub enum AssignType {
    Eq,
}

#[derive(Debug)]
pub enum Expr {
    Literal(Literal),
    FnCall(FnCall),
    StaticAccess(StaticAccess),
    IdentLookup(String),
    SharedRef(Box<Expr>),
    MutRef(Box<Expr>),
    Deref(Box<Expr>),
}

/// `name(args)`
#[derive(Debug)]
pub struct FnCall {
    pub name: String,
    pub args: Vec<Expr>,
}

/// `lhs::rhs`
#[derive(Debug)]
pub struct StaticAccess {
    pub lhs: String,
    pub rhs: Box<Expr>,
}

#[derive(Debug)]
pub enum Literal {
    Bool(bool),
    String(String),
    Tuple(Vec<Expr>),
    SomeOption(Box<Expr>),
    NoneOption,
}

} // verus!

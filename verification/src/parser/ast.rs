//! The syntax tree of a Ferrum source file.
use vstd::prelude::*;

use crate::lexer::token::Token;
use crate::punctuated::Punctuated;
use crate::scope::ScopeTable;
use crate::span::Span;

verus! {

/// The syntax tree of a file: its items, and the scopes filled in for it.
#[derive(Debug)]
pub struct FerrumFileAst {
    pub file_type: FileType,
    pub items: Vec<ItemNode>,
    pub pub_api: ScopeTable,
    pub scope: ScopeTable,
    pub span: Span,
}

/// Whether a file is Ferrum source or bindings to local Rust code.
#[derive(Clone, Copy, Debug, PartialEq, Eq, Structural)]
pub enum FileType {
    Ferrum,
    LocalRustBind,
}

/// An item of a file or of a function body.
#[derive(Debug)]
pub struct ItemNode {
    pub item: Item,
    pub span: Span,
}

#[derive(Debug)]
pub enum Item {
    Use(UseNode),
    FnDef(FnDefNode),
    Statement(StatementNode),
}

/// `pub? use prefix? pattern`
#[derive(Debug)]
pub struct UseNode {
    pub public: Option<Token>,
    pub use_token: Token,
    pub pattern_prefix: Option<PatternPrefix>,
    pub use_pattern: UsePatternNode<InitUsePattern>,
    pub span: Span,
}

/// Where a use path starts: at the root (`~/`) or some directories up
/// (`../../`).
#[derive(Debug)]
pub enum PatternPrefix {
    Root(RootPrefixNode),
    Rel(RelPrefixNode),
}

/// `~/`
#[derive(Debug)]
pub struct RootPrefixNode {
    pub tilde: Token,
    pub forward_slash: Token,
    pub span: Span,
}

/// `../../`
#[derive(Debug)]
pub struct RelPrefixNode {
    pub parent_dirs: Vec<ParentDirPrefixNode>,
    pub span: Span,
}

/// `../`
#[derive(Debug)]
pub struct ParentDirPrefixNode {
    pub double_period: Token,
    pub forward_slash: Token,
    pub span: Span,
}

/// A use pattern of some kind, with its span.
#[derive(Debug)]
pub struct UsePatternNode<T = UsePattern> {
    pub use_pattern: T,
    pub span: Span,
}

/// The first segment of a use pattern.
#[derive(Debug)]
pub enum InitUsePattern {
    Id(Token),
    Path(UsePatternPath),
}

/// A pattern inside `{ ... }`.
#[derive(Debug)]
pub enum DestructInitUsePattern {
    Id(Token),
    Self_(Token),
    Wild(Token),
    Path(UsePatternPath),
}

/// A segment of a use pattern after `::`.
#[derive(Debug)]
pub enum UsePattern {
    Id(Token),
    Wild(Token),
    Path(UsePatternPath),
    Destruct(UsePatternDestruct),
}

/// `name::rest`
#[derive(Debug)]
pub struct UsePatternPath {
    pub parent_name: Token,
    pub delim: Token,
    pub rhs: Box<UsePatternNode>,
}

/// `{ a, b::c, self }`
#[derive(Debug)]
pub struct UsePatternDestruct {
    pub open_brace: Token,
    pub patterns: Punctuated<Box<UsePatternNode<DestructInitUsePattern>>, Token>,
    pub close_brace: Token,
}

/// `pub? fn name(params) (-> type)? (=> statement | items ;)`
#[derive(Debug)]
pub struct FnDefNode {
    pub pub_token: Option<Token>,
    pub fn_token: Token,
    pub name: Token,
    pub open_paren: Token,
    pub params: Punctuated<FnDefParamNode, Token>,
    pub close_paren: Token,
    pub return_type: Option<(Token, TypeNode)>,
    pub body: FnDefBody,
    pub scope: ScopeTable,
    pub span: Span,
}

/// `name: type (= default)?`
#[derive(Debug)]
pub struct FnDefParamNode {
    pub name: Token,
    pub colon: Token,
    pub param_type: TypeNode,
    pub default_value: Option<(Token, ExprNode)>,
    pub span: Span,
}

#[derive(Debug)]
pub enum FnDefBody {
    Block(FnDefBlockNode),
    Stmt(FnDefStmtNode),
}

/// A body of items ended by `;`.
#[derive(Debug)]
pub struct FnDefBlockNode {
    pub items: Vec<ItemNode>,
    pub close_semicolon: Token,
    pub span: Span,
}

/// A body of one statement after `=>`.
#[derive(Debug)]
pub struct FnDefStmtNode {
    pub fat_arrow: Token,
    pub stmt: Box<ItemNode>,
    pub span: Span,
}

#[derive(Debug)]
pub struct StatementNode {
    pub statement: Statement,
    pub span: Span,
}

#[derive(Debug)]
pub enum Statement {
    Pass,
    Expr(ExprNode),
    Decl(DeclarationNode),
    Assign(AssignNode),
    Do(DoNode),
}

/// `let|const pattern (: type)? (= expr)?`
#[derive(Debug)]
pub struct DeclarationNode {
    pub is_const: bool,
    pub decl_token: Token,
    pub decl_pattern: DeclPatternNode,
    pub explicit_type: Option<(Token, TypeNode)>,
    pub rhs_expr: Option<(Token, ExprNode)>,
    pub span: Span,
}

#[derive(Debug)]
pub struct DeclPatternNode {
    pub decl_pattern: DeclPattern,
    pub span: Span,
}

#[derive(Debug)]
pub enum DeclPattern {
    Id(Token),
}

/// `lhs = rhs`
#[derive(Debug)]
pub struct AssignNode {
    pub lhs: Box<StatementNode>,
    pub rhs: ExprNode,
    pub assign: Token,
    pub span: Span,
}

/// A block of statements ended by `;`.
#[derive(Debug)]
pub struct DoNode {
    pub stmts: Vec<StatementNode>,
    pub close_semicolon: Token,
    pub span: Span,
}

#[derive(Debug)]
pub struct ExprNode {
    pub expr: Expr,
    pub span: Span,
}

#[derive(Debug)]
pub enum Expr {
    IdentLookup(IdentLookupNode),
    StaticAccess(StaticAccessNode),
    FnCall(FnCallNode),
    Literal(LiteralNode),
    Ref(RefNode),
    Deref(DerefNode),
    TemplateString(TemplateStringNode),
}

/// A name.
#[derive(Debug)]
pub struct IdentLookupNode {
    pub name: Token,
    pub span: Span,
}

/// `name::expr`
#[derive(Debug)]
pub struct StaticAccessNode {
    pub lhs: IdentLookupNode,
    pub delim: Token,
    pub rhs: Box<ExprNode>,
    pub span: Span,
}

/// `name(args)`
#[derive(Debug)]
pub struct FnCallNode {
    pub name: Token,
    pub open_paren: Token,
    pub close_paren: Token,
    pub args: Punctuated<FnCallArgNode, Token>,
    pub span: Span,
}

/// `(name =)? expr`
#[derive(Debug)]
pub struct FnCallArgNode {
    pub name: Option<(Token, Token)>,
    pub expr: Box<ExprNode>,
    pub span: Span,
}

#[derive(Debug)]
pub struct LiteralNode {
    pub literal: Literal,
    pub span: Span,
}

#[derive(Debug)]
pub enum Literal {
    Bool(bool),
    String(String),
    SomeOption { token: Token, open_paren: Token, expr: Box<ExprNode>, close_paren: Token },
    NoneOption(Token),
}

/// `& mut? expr`
#[derive(Debug)]
pub struct RefNode {
    pub ref_token: Token,
    pub mut_token: Option<Token>,
    pub expr: Box<ExprNode>,
    pub span: Span,
}

/// `@expr`
#[derive(Debug)]
pub struct DerefNode {
    pub deref_token: Token,
    pub expr: Box<ExprNode>,
    pub span: Span,
}

#[derive(Debug)]
pub struct TemplateStringNode {
    pub start_value: String,
    pub middles: Vec<TemplateStringMiddleNode>,
    pub span: Span,
}

#[derive(Debug)]
pub struct TemplateStringMiddleNode {
    pub expr: Box<ExprNode>,
    pub post_value: String,
    pub span: Span,
}

#[derive(Debug)]
pub struct TypeNode {
    pub typ: Type,
    pub span: Span,
}

#[derive(Debug)]
pub enum Type {
    Int(Token),
    Uint(Token),
    Char(Token),
    String(Token),
    Bool(Token),
    Array(Box<TypeNode>, Token),
    List(Box<TypeNode>),
    Custom(CustomTypeNode),
    DynInstance(CustomTypeNode),
    Scoped(Box<TypeNode>, Box<TypeNode>),
    SharedRef(SharedRefNode),
    MutRef(MutRefNode),
    Managed(Box<TypeNode>),
    Optional(OptionalNode),
    Result(Option<Box<TypeNode>>),
}

/// `?type`
#[derive(Debug)]
pub struct OptionalNode {
    pub question_mark: Token,
    pub of: Box<TypeNode>,
    pub span: Span,
}

#[derive(Debug)]
pub struct CustomTypeNode {
    pub name: Token,
    pub generic_args: Option<GenericArgs>,
    pub span: Span,
}

#[derive(Debug)]
pub struct GenericArgs {
    pub open_chevron: Token,
    pub args: Punctuated<Box<TypeNode>, Token>,
    pub close_chevron: Token,
    pub span: Span,
}

/// `&type`
#[derive(Debug)]
pub struct SharedRefNode {
    pub ref_token: Token,
    pub of: Box<TypeNode>,
    pub span: Span,
}

/// `&mut type`
#[derive(Debug)]
pub struct MutRefNode {
    pub ref_token: Token,
    pub mut_token: Token,
    pub of: Box<TypeNode>,
    pub span: Span,
}

} // verus!

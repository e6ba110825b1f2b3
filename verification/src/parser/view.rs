//! The syntax tree as mathematical values: texts are sequences of
//! characters, vectors are sequences, and tokens are token views. The
//! parser's contracts are stated over these.
use vstd::prelude::*;

use crate::lexer::token::{Token, TokenView};
use crate::parser::ast::{
    FerrumFileAst, FileType, ItemNode, Item, UseNode, PatternPrefix, ParentDirPrefixNode, UsePatternNode, InitUsePattern, DestructInitUsePattern, UsePattern, UsePatternPath, FnDefNode, FnDefParamNode, FnDefBody, StatementNode, Statement, DeclarationNode, DeclPatternNode, DeclPattern, ExprNode, Expr, IdentLookupNode, FnCallNode, FnCallArgNode, LiteralNode, Literal, TypeNode, Type, CustomTypeNode,
};
use crate::punctuated::Punctuated;
use crate::scope::{ScopeRef, ScopeRefNode, ScopeTable};
use crate::span::Span;

verus! {

/// A punctuated sequence as a mathematical value.
pub enum SpecPunct<T> {
    Empty,
    NonEmpty { first: T, rest: Seq<(TokenView, T)>, trailing: Option<TokenView> },
}

impl<T> SpecPunct<T> {
    /// The values, in order.
    pub open spec fn values(self) -> Seq<T> {
        match self {
            SpecPunct::Empty => Seq::empty(),
            SpecPunct::NonEmpty { first, rest, .. } => seq![first] + Seq::new(
                rest.len(),
                |k: int| rest[k].1,
            ),
        }
    }
}

pub open spec fn opt_tok(t: Option<Token>) -> Option<TokenView> {
    match t {
        Some(t) => Some(t@),
        None => None,
    }
}

pub struct SpecFileAst {
    pub file_type: FileType,
    pub items: Seq<SpecItemNode>,
    pub pub_api: Seq<(Seq<char>, SpecScopeRefNode)>,
    pub scope: Seq<(Seq<char>, SpecScopeRefNode)>,
    pub span: Span,
}

pub struct SpecItemNode {
    pub item: SpecItem,
    pub span: Span,
}

pub enum SpecItem {
    Use(SpecUseNode),
    FnDef(SpecFnDefNode),
    Statement(SpecStatementNode),
}

pub struct SpecUseNode {
    pub public: Option<TokenView>,
    pub use_token: TokenView,
    pub pattern_prefix: Option<SpecPatternPrefix>,
    pub use_pattern: SpecInitUsePatternNode,
    pub span: Span,
}

pub enum SpecPatternPrefix {
    Root { tilde: TokenView, forward_slash: TokenView, span: Span },
    Rel { parent_dirs: Seq<SpecParentDir>, span: Span },
}

pub struct SpecParentDir {
    pub double_period: TokenView,
    pub forward_slash: TokenView,
    pub span: Span,
}

pub struct SpecInitUsePatternNode {
    pub use_pattern: SpecInitUsePattern,
    pub span: Span,
}

pub enum SpecInitUsePattern {
    Id(TokenView),
    Path(SpecUsePatternPath),
}

pub struct SpecDestructUsePatternNode {
    pub use_pattern: SpecDestructUsePattern,
    pub span: Span,
}

pub enum SpecDestructUsePattern {
    Id(TokenView),
    Self_(TokenView),
    Wild(TokenView),
    Path(SpecUsePatternPath),
}

pub struct SpecUsePatternNode {
    pub use_pattern: SpecUsePattern,
    pub span: Span,
}

pub enum SpecUsePattern {
    Id(TokenView),
    Wild(TokenView),
    Path(SpecUsePatternPath),
    Destruct {
        open_brace: TokenView,
        patterns: SpecPunct<SpecDestructUsePatternNode>,
        close_brace: TokenView,
    },
}

pub struct SpecUsePatternPath {
    pub parent_name: TokenView,
    pub delim: TokenView,
    pub rhs: Box<SpecUsePatternNode>,
}

pub struct SpecFnDefNode {
    pub pub_token: Option<TokenView>,
    pub fn_token: TokenView,
    pub name: TokenView,
    pub open_paren: TokenView,
    pub params: SpecPunct<SpecFnDefParamNode>,
    pub close_paren: TokenView,
    pub return_type: Option<(TokenView, SpecTypeNode)>,
    pub body: SpecFnDefBody,
    pub scope: Seq<(Seq<char>, SpecScopeRefNode)>,
    pub span: Span,
}

pub struct SpecFnDefParamNode {
    pub name: TokenView,
    pub colon: TokenView,
    pub param_type: SpecTypeNode,
    pub default_value: Option<(TokenView, SpecExprNode)>,
    pub span: Span,
}

pub enum SpecFnDefBody {
    Block { items: Seq<SpecItemNode>, close_semicolon: TokenView, span: Span },
    Stmt { fat_arrow: TokenView, stmt: Box<SpecItemNode>, span: Span },
}

pub struct SpecStatementNode {
    pub statement: SpecStatement,
    pub span: Span,
}

pub enum SpecStatement {
    Pass,
    Expr(SpecExprNode),
    Decl(SpecDeclarationNode),
    Assign { lhs: Box<SpecStatementNode>, rhs: SpecExprNode, assign: TokenView, span: Span },
    Do { stmts: Seq<SpecStatementNode>, close_semicolon: TokenView, span: Span },
}

pub struct SpecDeclarationNode {
    pub is_const: bool,
    pub decl_token: TokenView,
    pub decl_pattern: SpecDeclPatternNode,
    pub explicit_type: Option<(TokenView, SpecTypeNode)>,
    pub rhs_expr: Option<(TokenView, SpecExprNode)>,
    pub span: Span,
}

pub struct SpecDeclPatternNode {
    pub id: TokenView,
    pub span: Span,
}

pub struct SpecExprNode {
    pub expr: SpecExpr,
    pub span: Span,
}

pub enum SpecExpr {
    IdentLookup(SpecIdentLookupNode),
    StaticAccess { lhs: SpecIdentLookupNode, delim: TokenView, rhs: Box<SpecExprNode>, span: Span },
    FnCall(SpecFnCallNode),
    Literal(SpecLiteralNode),
    Ref { ref_token: TokenView, mut_token: Option<TokenView>, expr: Box<SpecExprNode>, span: Span },
    Deref { deref_token: TokenView, expr: Box<SpecExprNode>, span: Span },
    TemplateString { start_value: Seq<char>, middles: Seq<SpecTemplateMiddle>, span: Span },
}

pub struct SpecTemplateMiddle {
    pub expr: Box<SpecExprNode>,
    pub post_value: Seq<char>,
    pub span: Span,
}

pub struct SpecIdentLookupNode {
    pub name: TokenView,
    pub span: Span,
}

pub struct SpecFnCallNode {
    pub name: TokenView,
    pub open_paren: TokenView,
    pub close_paren: TokenView,
    pub args: SpecPunct<SpecFnCallArgNode>,
    pub span: Span,
}

pub struct SpecFnCallArgNode {
    pub name: Option<(TokenView, TokenView)>,
    pub expr: Box<SpecExprNode>,
    pub span: Span,
}

pub struct SpecLiteralNode {
    pub literal: SpecLiteral,
    pub span: Span,
}

pub enum SpecLiteral {
    Bool(bool),
    String(Seq<char>),
    SomeOption {
        token: TokenView,
        open_paren: TokenView,
        expr: Box<SpecExprNode>,
        close_paren: TokenView,
    },
    NoneOption(TokenView),
}

pub struct SpecTypeNode {
    pub typ: SpecType,
    pub span: Span,
}

pub enum SpecType {
    Int(TokenView),
    Uint(TokenView),
    Char(TokenView),
    String(TokenView),
    Bool(TokenView),
    Array(Box<SpecTypeNode>, TokenView),
    List(Box<SpecTypeNode>),
    Custom(SpecCustomTypeNode),
    DynInstance(SpecCustomTypeNode),
    Scoped(Box<SpecTypeNode>, Box<SpecTypeNode>),
    SharedRef { ref_token: TokenView, of: Box<SpecTypeNode>, span: Span },
    MutRef { ref_token: TokenView, mut_token: TokenView, of: Box<SpecTypeNode>, span: Span },
    Managed(Box<SpecTypeNode>),
    Optional { question_mark: TokenView, of: Box<SpecTypeNode>, span: Span },
    Result(Option<Box<SpecTypeNode>>),
}

pub struct SpecCustomTypeNode {
    pub name: TokenView,
    pub generic_args: Option<SpecGenericArgs>,
    pub span: Span,
}

pub struct SpecGenericArgs {
    pub open_chevron: TokenView,
    pub args: SpecPunct<Box<SpecTypeNode>>,
    pub close_chevron: TokenView,
    pub span: Span,
}

pub struct SpecScopeRefNode {
    pub name: Seq<char>,
    pub is_public: bool,
    pub scope_ref: SpecScopeRef,
}

pub enum SpecScopeRef {
    Mod(Seq<(Seq<char>, SpecScopeRefNode)>),
    Fn { name: Seq<char>, params: Seq<SpecFnDefParamNode>, return_type: Option<SpecType> },
    LocalVar { is_const: bool, name: Seq<char>, known_type: Option<SpecType> },
}

// ---- views of types ----

pub open spec fn type_node_view(t: TypeNode) -> SpecTypeNode
    decreases t, 1nat,
{
    SpecTypeNode { typ: type_view(t.typ), span: t.span }
}

pub open spec fn type_view(t: Type) -> SpecType
    decreases t, 0nat,
{
    match t {
        Type::Int(k) => SpecType::Int(k@),
        Type::Uint(k) => SpecType::Uint(k@),
        Type::Char(k) => SpecType::Char(k@),
        Type::String(k) => SpecType::String(k@),
        Type::Bool(k) => SpecType::Bool(k@),
        Type::Array(of, k) => SpecType::Array(Box::new(type_node_view(*of)), k@),
        Type::List(of) => SpecType::List(Box::new(type_node_view(*of))),
        Type::Custom(c) => SpecType::Custom(custom_type_view(c)),
        Type::DynInstance(c) => SpecType::DynInstance(custom_type_view(c)),
        Type::Scoped(a, b) => SpecType::Scoped(
            Box::new(type_node_view(*a)),
            Box::new(type_node_view(*b)),
        ),
        Type::SharedRef(r) => SpecType::SharedRef {
            ref_token: r.ref_token@,
            of: Box::new(type_node_view(*r.of)),
            span: r.span,
        },
        Type::MutRef(r) => SpecType::MutRef {
            ref_token: r.ref_token@,
            mut_token: r.mut_token@,
            of: Box::new(type_node_view(*r.of)),
            span: r.span,
        },
        Type::Managed(of) => SpecType::Managed(Box::new(type_node_view(*of))),
        Type::Optional(o) => SpecType::Optional {
            question_mark: o.question_mark@,
            of: Box::new(type_node_view(*o.of)),
            span: o.span,
        },
        Type::Result(r) => SpecType::Result(
            match r {
                Some(of) => Some(Box::new(type_node_view(*of))),
                None => None,
            },
        ),
    }
}

pub open spec fn custom_type_view(c: CustomTypeNode) -> SpecCustomTypeNode
    decreases c, 0nat,
{
    SpecCustomTypeNode {
        name: c.name@,
        generic_args: match c.generic_args {
            Some(g) => Some(
                SpecGenericArgs {
                    open_chevron: g.open_chevron@,
                    args: type_punct_view(g.args),
                    close_chevron: g.close_chevron@,
                    span: g.span,
                },
            ),
            None => None,
        },
        span: c.span,
    }
}

pub open spec fn type_punct_view(p: Punctuated<Box<TypeNode>, Token>) -> SpecPunct<Box<SpecTypeNode>>
    decreases p, 0nat,
{
    match p {
        Punctuated::Empty => SpecPunct::Empty,
        Punctuated::NonEmpty { first, rest, trailing } => SpecPunct::NonEmpty {
            first: Box::new(type_node_view(*first)),
            rest: Seq::new(
                rest@.len(),
                |k: int|
                    if 0 <= k < rest@.len() {
                        (rest@[k].0@, Box::new(type_node_view(*rest@[k].1)))
                    } else {
                        arbitrary()
                    },
            ),
            trailing: opt_tok(trailing),
        },
    }
}

// ---- views of expressions ----

pub open spec fn expr_node_view(e: ExprNode) -> SpecExprNode
    decreases e, 1nat,
{
    SpecExprNode { expr: expr_view(e.expr), span: e.span }
}

pub open spec fn ident_lookup_view(n: IdentLookupNode) -> SpecIdentLookupNode {
    SpecIdentLookupNode { name: n.name@, span: n.span }
}

pub open spec fn expr_view(e: Expr) -> SpecExpr
    decreases e, 0nat,
{
    match e {
        Expr::IdentLookup(n) => SpecExpr::IdentLookup(ident_lookup_view(n)),
        Expr::StaticAccess(n) => SpecExpr::StaticAccess {
            lhs: ident_lookup_view(n.lhs),
            delim: n.delim@,
            rhs: Box::new(expr_node_view(*n.rhs)),
            span: n.span,
        },
        Expr::FnCall(n) => SpecExpr::FnCall(fn_call_view(n)),
        Expr::Literal(n) => SpecExpr::Literal(literal_node_view(n)),
        Expr::Ref(n) => SpecExpr::Ref {
            ref_token: n.ref_token@,
            mut_token: opt_tok(n.mut_token),
            expr: Box::new(expr_node_view(*n.expr)),
            span: n.span,
        },
        Expr::Deref(n) => SpecExpr::Deref {
            deref_token: n.deref_token@,
            expr: Box::new(expr_node_view(*n.expr)),
            span: n.span,
        },
        Expr::TemplateString(n) => SpecExpr::TemplateString {
            start_value: n.start_value@,
            middles: Seq::new(
                n.middles@.len(),
                |k: int|
                    if 0 <= k < n.middles@.len() {
                        SpecTemplateMiddle {
                            expr: Box::new(expr_node_view(*n.middles@[k].expr)),
                            post_value: n.middles@[k].post_value@,
                            span: n.middles@[k].span,
                        }
                    } else {
                        arbitrary()
                    },
            ),
            span: n.span,
        },
    }
}

pub open spec fn literal_node_view(n: LiteralNode) -> SpecLiteralNode
    decreases n, 0nat,
{
    SpecLiteralNode {
        literal: match n.literal {
            Literal::Bool(b) => SpecLiteral::Bool(b),
            Literal::String(s) => SpecLiteral::String(s@),
            Literal::SomeOption { token, open_paren, expr, close_paren } => SpecLiteral::SomeOption {
                token: token@,
                open_paren: open_paren@,
                expr: Box::new(expr_node_view(*expr)),
                close_paren: close_paren@,
            },
            Literal::NoneOption(t) => SpecLiteral::NoneOption(t@),
        },
        span: n.span,
    }
}

pub open spec fn fn_call_arg_view(a: FnCallArgNode) -> SpecFnCallArgNode
    decreases a, 0nat,
{
    SpecFnCallArgNode {
        name: match a.name {
            Some((n, eq)) => Some((n@, eq@)),
            None => None,
        },
        expr: Box::new(expr_node_view(*a.expr)),
        span: a.span,
    }
}

pub open spec fn fn_call_view(n: FnCallNode) -> SpecFnCallNode
    decreases n, 0nat,
{
    SpecFnCallNode {
        name: n.name@,
        open_paren: n.open_paren@,
        close_paren: n.close_paren@,
        args: arg_punct_view(n.args),
        span: n.span,
    }
}

pub open spec fn arg_punct_view(p: Punctuated<FnCallArgNode, Token>) -> SpecPunct<SpecFnCallArgNode>
    decreases p, 0nat,
{
    match p {
        Punctuated::Empty => SpecPunct::Empty,
        Punctuated::NonEmpty { first, rest, trailing } => SpecPunct::NonEmpty {
            first: fn_call_arg_view(first),
            rest: Seq::new(
                rest@.len(),
                |k: int|
                    if 0 <= k < rest@.len() {
                        (rest@[k].0@, fn_call_arg_view(rest@[k].1))
                    } else {
                        arbitrary()
                    },
            ),
            trailing: opt_tok(trailing),
        },
    }
}

// ---- views of statements ----

pub open spec fn opt_type_view(t: Option<(Token, TypeNode)>) -> Option<(TokenView, SpecTypeNode)> {
    match t {
        Some((k, t)) => Some((k@, type_node_view(t))),
        None => None,
    }
}

pub open spec fn opt_expr_view(e: Option<(Token, ExprNode)>) -> Option<(TokenView, SpecExprNode)> {
    match e {
        Some((k, e)) => Some((k@, expr_node_view(e))),
        None => None,
    }
}

pub open spec fn decl_pattern_view(p: DeclPatternNode) -> SpecDeclPatternNode {
    match p.decl_pattern {
        DeclPattern::Id(t) => SpecDeclPatternNode { id: t@, span: p.span },
    }
}

pub open spec fn decl_view(d: DeclarationNode) -> SpecDeclarationNode {
    SpecDeclarationNode {
        is_const: d.is_const,
        decl_token: d.decl_token@,
        decl_pattern: decl_pattern_view(d.decl_pattern),
        explicit_type: opt_type_view(d.explicit_type),
        rhs_expr: opt_expr_view(d.rhs_expr),
        span: d.span,
    }
}

pub open spec fn stmt_node_view(s: StatementNode) -> SpecStatementNode
    decreases s, 1nat,
{
    SpecStatementNode { statement: stmt_view(s.statement), span: s.span }
}

pub open spec fn stmt_view(s: Statement) -> SpecStatement
    decreases s, 0nat,
{
    match s {
        Statement::Pass => SpecStatement::Pass,
        Statement::Expr(e) => SpecStatement::Expr(expr_node_view(e)),
        Statement::Decl(d) => SpecStatement::Decl(decl_view(d)),
        Statement::Assign(a) => SpecStatement::Assign {
            lhs: Box::new(stmt_node_view(*a.lhs)),
            rhs: expr_node_view(a.rhs),
            assign: a.assign@,
            span: a.span,
        },
        Statement::Do(d) => SpecStatement::Do {
            stmts: Seq::new(
                d.stmts@.len(),
                |k: int|
                    if 0 <= k < d.stmts@.len() {
                        stmt_node_view(d.stmts@[k])
                    } else {
                        SpecStatementNode { statement: SpecStatement::Pass, span: d.span }
                    },
            ),
            close_semicolon: d.close_semicolon@,
            span: d.span,
        },
    }
}

// ---- views of use patterns ----

pub open spec fn use_path_view(p: UsePatternPath) -> SpecUsePatternPath
    decreases p, 2nat,
{
    SpecUsePatternPath {
        parent_name: p.parent_name@,
        delim: p.delim@,
        rhs: Box::new(use_pattern_node_view(*p.rhs)),
    }
}

pub open spec fn use_pattern_node_view(n: UsePatternNode) -> SpecUsePatternNode
    decreases n, 1nat,
{
    SpecUsePatternNode { use_pattern: use_pattern_view(n.use_pattern), span: n.span }
}

pub open spec fn use_pattern_view(p: UsePattern) -> SpecUsePattern
    decreases p, 0nat,
{
    match p {
        UsePattern::Id(t) => SpecUsePattern::Id(t@),
        UsePattern::Wild(t) => SpecUsePattern::Wild(t@),
        UsePattern::Path(path) => SpecUsePattern::Path(use_path_view(path)),
        UsePattern::Destruct(d) => SpecUsePattern::Destruct {
            open_brace: d.open_brace@,
            patterns: destruct_punct_view(d.patterns),
            close_brace: d.close_brace@,
        },
    }
}

pub open spec fn destruct_node_view(n: UsePatternNode<DestructInitUsePattern>) -> SpecDestructUsePatternNode
    decreases n, 0nat,
{
    SpecDestructUsePatternNode {
        use_pattern: match n.use_pattern {
            DestructInitUsePattern::Id(t) => SpecDestructUsePattern::Id(t@),
            DestructInitUsePattern::Self_(t) => SpecDestructUsePattern::Self_(t@),
            DestructInitUsePattern::Wild(t) => SpecDestructUsePattern::Wild(t@),
            DestructInitUsePattern::Path(p) => SpecDestructUsePattern::Path(use_path_view(p)),
        },
        span: n.span,
    }
}

pub open spec fn destruct_punct_view(
    p: Punctuated<Box<UsePatternNode<DestructInitUsePattern>>, Token>,
) -> SpecPunct<SpecDestructUsePatternNode>
    decreases p, 0nat,
{
    match p {
        Punctuated::Empty => SpecPunct::Empty,
        Punctuated::NonEmpty { first, rest, trailing } => SpecPunct::NonEmpty {
            first: destruct_node_view(*first),
            rest: Seq::new(
                rest@.len(),
                |k: int|
                    if 0 <= k < rest@.len() {
                        (rest@[k].0@, destruct_node_view(*rest@[k].1))
                    } else {
                        arbitrary()
                    },
            ),
            trailing: opt_tok(trailing),
        },
    }
}

pub open spec fn init_pattern_view(n: UsePatternNode<InitUsePattern>) -> SpecInitUsePatternNode {
    SpecInitUsePatternNode {
        use_pattern: match n.use_pattern {
            InitUsePattern::Id(t) => SpecInitUsePattern::Id(t@),
            InitUsePattern::Path(p) => SpecInitUsePattern::Path(use_path_view(p)),
        },
        span: n.span,
    }
}

pub open spec fn parent_dir_view(d: ParentDirPrefixNode) -> SpecParentDir {
    SpecParentDir {
        double_period: d.double_period@,
        forward_slash: d.forward_slash@,
        span: d.span,
    }
}

pub open spec fn parent_dirs_view(ds: Seq<ParentDirPrefixNode>) -> Seq<SpecParentDir> {
    ds.map_values(|d: ParentDirPrefixNode| parent_dir_view(d))
}

pub open spec fn prefix_view(p: Option<PatternPrefix>) -> Option<SpecPatternPrefix> {
    match p {
        Some(PatternPrefix::Root(r)) => Some(
            SpecPatternPrefix::Root {
                tilde: r.tilde@,
                forward_slash: r.forward_slash@,
                span: r.span,
            },
        ),
        Some(PatternPrefix::Rel(r)) => Some(
            SpecPatternPrefix::Rel { parent_dirs: parent_dirs_view(r.parent_dirs@), span: r.span },
        ),
        None => None,
    }
}

pub open spec fn use_node_view(u: UseNode) -> SpecUseNode {
    SpecUseNode {
        public: opt_tok(u.public),
        use_token: u.use_token@,
        pattern_prefix: prefix_view(u.pattern_prefix),
        use_pattern: init_pattern_view(u.use_pattern),
        span: u.span,
    }
}

// ---- views of functions, items and scopes ----

pub open spec fn param_view(p: FnDefParamNode) -> SpecFnDefParamNode {
    SpecFnDefParamNode {
        name: p.name@,
        colon: p.colon@,
        param_type: type_node_view(p.param_type),
        default_value: opt_expr_view(p.default_value),
        span: p.span,
    }
}

pub open spec fn param_punct_view(p: Punctuated<FnDefParamNode, Token>) -> SpecPunct<SpecFnDefParamNode> {
    match p {
        Punctuated::Empty => SpecPunct::Empty,
        Punctuated::NonEmpty { first, rest, trailing } => SpecPunct::NonEmpty {
            first: param_view(first),
            rest: rest@.map_values(|r: (Token, FnDefParamNode)| (r.0@, param_view(r.1))),
            trailing: opt_tok(trailing),
        },
    }
}

pub open spec fn opt_spec_type(t: Option<Type>) -> Option<SpecType> {
    match t {
        Some(t) => Some(type_view(t)),
        None => None,
    }
}

pub open spec fn scope_ref_node_view(n: ScopeRefNode) -> SpecScopeRefNode
    decreases n, 2nat,
{
    SpecScopeRefNode { name: n.name@, is_public: n.is_public, scope_ref: scope_ref_view(n.scope_ref) }
}

pub open spec fn scope_ref_view(r: ScopeRef) -> SpecScopeRef
    decreases r, 1nat,
{
    match r {
        ScopeRef::Mod(t) => SpecScopeRef::Mod(scope_table_view(t)),
        ScopeRef::Fn { name, params, return_type } => SpecScopeRef::Fn {
            name: name@,
            params: params@.map_values(|p: FnDefParamNode| param_view(p)),
            return_type: opt_spec_type(return_type),
        },
        ScopeRef::LocalVar { is_const, name, known_type } => SpecScopeRef::LocalVar {
            is_const,
            name: name@,
            known_type: opt_spec_type(known_type),
        },
    }
}

pub open spec fn scope_table_view(t: ScopeTable) -> Seq<(Seq<char>, SpecScopeRefNode)>
    decreases t, 0nat,
{
    Seq::new(
        t.entries@.len(),
        |k: int|
            if 0 <= k < t.entries@.len() {
                (t.entries@[k].0@, scope_ref_node_view(t.entries@[k].1))
            } else {
                (Seq::empty(), SpecScopeRefNode { name: Seq::empty(), is_public: false, scope_ref: SpecScopeRef::Mod(Seq::empty()) })
            },
    )
}

pub open spec fn item_node_view(n: ItemNode) -> SpecItemNode
    decreases n, 2nat,
{
    SpecItemNode { item: item_view(n.item), span: n.span }
}

pub open spec fn item_view(i: Item) -> SpecItem
    decreases i, 1nat,
{
    match i {
        Item::Use(u) => SpecItem::Use(use_node_view(u)),
        Item::FnDef(f) => SpecItem::FnDef(fn_def_view(f)),
        Item::Statement(s) => SpecItem::Statement(stmt_node_view(s)),
    }
}

pub open spec fn fn_def_view(f: FnDefNode) -> SpecFnDefNode
    decreases f, 1nat,
{
    SpecFnDefNode {
        pub_token: opt_tok(f.pub_token),
        fn_token: f.fn_token@,
        name: f.name@,
        open_paren: f.open_paren@,
        params: param_punct_view(f.params),
        close_paren: f.close_paren@,
        return_type: opt_type_view(f.return_type),
        body: fn_body_view(f.body),
        scope: scope_table_view(f.scope),
        span: f.span,
    }
}

pub open spec fn fn_body_view(b: FnDefBody) -> SpecFnDefBody
    decreases b, 0nat,
{
    match b {
        FnDefBody::Block(b) => SpecFnDefBody::Block {
            items: Seq::new(
                b.items@.len(),
                |k: int|
                    if 0 <= k < b.items@.len() {
                        item_node_view(b.items@[k])
                    } else {
                        SpecItemNode {
                            item: SpecItem::Statement(
                                SpecStatementNode { statement: SpecStatement::Pass, span: b.span },
                            ),
                            span: b.span,
                        }
                    },
            ),
            close_semicolon: b.close_semicolon@,
            span: b.span,
        },
        FnDefBody::Stmt(s) => SpecFnDefBody::Stmt {
            fat_arrow: s.fat_arrow@,
            stmt: Box::new(item_node_view(*s.stmt)),
            span: s.span,
        },
    }
}

/// The views of a sequence of items.
pub open spec fn items_view(items: Seq<ItemNode>) -> Seq<SpecItemNode> {
    items.map_values(|n: ItemNode| item_node_view(n))
}

pub open spec fn file_view(f: FerrumFileAst) -> SpecFileAst {
    SpecFileAst {
        file_type: f.file_type,
        items: items_view(f.items@),
        pub_api: scope_table_view(f.pub_api),
        scope: scope_table_view(f.scope),
        span: f.span,
    }
}

} // verus!

//! The Rust text generated for each piece of the Rust syntax tree, as
//! sequences of characters, and the trees the generator can turn into text.
use vstd::prelude::*;

use crate::generator::rust_ast::{
    AssignType, DeclPattern, Expr, FnDef, FnDefParam, Item, Literal, Statement, Type, UsePattern,
};

verus! {

/// `n` levels of indentation, four spaces each.
pub open spec fn padding_spec(n: nat) -> Seq<char>
    decreases n,
{
    if n == 0 {
        Seq::empty()
    } else {
        padding_spec((n - 1) as nat) + "    "@
    }
}

/// `pub ` where `is_public`, else nothing.
pub open spec fn pub_prefix(is_public: bool) -> Seq<char> {
    if is_public {
        "pub "@
    } else {
        Seq::empty()
    }
}

/// The text of a type: only `FeStr` has one.
pub open spec fn rs_type(t: Type) -> Seq<char> {
    match t {
        Type::FeStr => "FeStr"@,
        _ => Seq::empty(),
    }
}

/// The text of a use pattern.
pub open spec fn rs_use_pattern(p: UsePattern) -> Seq<char>
    decreases p,
{
    match p {
        UsePattern::Id(id) => id@,
        UsePattern::Path(path) => path.parent@ + "::"@ + rs_use_pattern(*path.rhs),
        UsePattern::Wild => "*"@,
        UsePattern::Destruct(d) => "{"@ + rs_use_fields(d.fields@) + "}"@,
    }
}

/// The texts of use patterns, joined by `, `.
pub open spec fn rs_use_fields(fs: Seq<UsePattern>) -> Seq<char>
    decreases fs,
{
    if fs.len() == 0 {
        Seq::empty()
    } else if fs.len() == 1 {
        rs_use_pattern(fs[0])
    } else {
        rs_use_fields(fs.drop_last()) + ", "@ + rs_use_pattern(fs[fs.len() - 1])
    }
}

/// The text of an expression.
pub open spec fn rs_expr(e: Expr) -> Seq<char>
    decreases e,
{
    match e {
        Expr::Literal(l) => rs_lit(l),
        Expr::FnCall(c) => c.name@ + "("@ + rs_args(c.args@) + ")"@,
        Expr::StaticAccess(s) => s.lhs@ + "::"@ + rs_expr(*s.rhs),
        Expr::IdentLookup(id) => id@,
        Expr::SharedRef(e) => "&"@ + rs_expr(*e),
        Expr::MutRef(e) => "&mut "@ + rs_expr(*e),
        Expr::Deref(e) => "*"@ + rs_expr(*e),
    }
}

/// The texts of the arguments of a call, joined by `, `.
pub open spec fn rs_args(es: Seq<Expr>) -> Seq<char>
    decreases es,
{
    if es.len() == 0 {
        Seq::empty()
    } else if es.len() == 1 {
        rs_expr(es[0])
    } else {
        rs_args(es.drop_last()) + ", "@ + rs_expr(es[es.len() - 1])
    }
}

/// The texts of the elements of a tuple, each followed by `,`.
pub open spec fn rs_tuple(es: Seq<Expr>) -> Seq<char>
    decreases es,
{
    if es.len() == 0 {
        Seq::empty()
    } else {
        rs_tuple(es.drop_last()) + rs_expr(es[es.len() - 1]) + ","@
    }
}

/// The text of a literal; a string becomes a static `FeStr`.
pub open spec fn rs_lit(l: Literal) -> Seq<char>
    decreases l,
{
    match l {
        Literal::Bool(b) => if b {
            "true"@
        } else {
            "false"@
        },
        Literal::String(s) => "FeStr::from_static(\""@ + s@ + "\")"@,
        Literal::Tuple(es) => "("@ + rs_tuple(es@) + ")"@,
        Literal::SomeOption(e) => "Some("@ + rs_expr(*e) + ")"@,
        Literal::NoneOption => "None"@,
    }
}

/// The text of a parameter: `mut ` unless it is a reference, its name, and
/// its type.
pub open spec fn rs_param(p: FnDefParam) -> Seq<char> {
    let m = match p.param_type {
        Type::SharedRef(_) | Type::MutRef(_) => Seq::empty(),
        _ => "mut "@,
    };
    m + p.name@ + ": "@ + rs_type(p.param_type)
}

/// The texts of parameters, each followed by `, `.
pub open spec fn rs_params(ps: Seq<FnDefParam>) -> Seq<char>
    decreases ps.len(),
{
    if ps.len() == 0 {
        Seq::empty()
    } else {
        rs_params(ps.drop_last()) + rs_param(ps[ps.len() - 1]) + ", "@
    }
}

/// The text of an item at indentation `n`.
pub open spec fn rs_item(n: nat, i: Item) -> Seq<char>
    decreases i, 1nat,
{
    match i {
        Item::Use(u) => pub_prefix(u.is_public) + "use "@ + rs_use_pattern(u.use_pattern) + ";\n"@,
        Item::Mod(m) => pub_prefix(m.is_public) + "mod "@ + m.name@ + ";\n"@,
        Item::FnDef(f) => rs_fn_def(n, f),
    }
}

/// The text of a function at indentation `n`: its body one level deeper,
/// its closing brace at `n`.
pub open spec fn rs_fn_def(n: nat, f: FnDef) -> Seq<char>
    decreases f, 0nat,
{
    let ret = match f.return_type {
        Some(t) => " -> "@ + rs_type(t),
        None => Seq::empty(),
    };
    pub_prefix(f.is_public) + "fn "@ + f.name@ + "("@ + rs_params(f.params@) + ")"@ + ret + " {\n"@
        + rs_stmts(n + 1, f.body@) + padding_spec(n) + "}\n"@
}

/// The texts of statements at indentation `n`, one after another.
pub open spec fn rs_stmts(n: nat, ss: Seq<Statement>) -> Seq<char>
    decreases ss, 0nat,
{
    if ss.len() == 0 {
        Seq::empty()
    } else {
        rs_stmts(n, ss.drop_last()) + rs_stmt(n, ss[ss.len() - 1])
    }
}

/// The text of a statement at indentation `n`: an item as it is, anything
/// else followed by `;`.
pub open spec fn rs_stmt(n: nat, s: Statement) -> Seq<char>
    decreases s, 2nat,
{
    match s {
        Statement::Item(i) => padding_spec(n) + rs_item(n, i),
        _ => padding_spec(n) + rs_partial(s) + ";\n"@,
    }
}

/// The text of a statement without its `;`.
pub open spec fn rs_partial(s: Statement) -> Seq<char>
    decreases s, 1nat,
{
    match s {
        Statement::Item(_) => Seq::empty(),
        Statement::Expr(e) => rs_expr(e),
        Statement::Decl(d) => {
            let kw = if d.is_const {
                "let "@
            } else {
                "let mut "@
            };
            let pat = match d.decl_pattern {
                DeclPattern::Id(id) => id@,
            };
            let ty = match d.explicit_type {
                Some(t) => ": "@ + rs_type(t),
                None => Seq::empty(),
            };
            kw + pat + ty
        },
        Statement::Assign(a) => rs_partial(*a.lhs) + match a.assign_type {
            AssignType::Eq => " = "@,
        } + rs_expr(a.rhs),
    }
}

/// The first line of every generated file.
pub open spec fn file_header() -> Seq<char> {
    "use crate::ferrum::prelude::*;\n\n"@
}

/// The texts of a file's items at indentation `n`, each indented, one
/// after another.
pub open spec fn rs_items(n: nat, items: Seq<Item>) -> Seq<char>
    decreases items.len(),
{
    if items.len() == 0 {
        Seq::empty()
    } else {
        rs_items(n, items.drop_last()) + padding_spec(n) + rs_item(n, items[items.len() - 1])
    }
}

/// The text of a file at indentation `n`.
pub open spec fn rs_file(n: nat, items: Seq<Item>) -> Seq<char> {
    file_header() + rs_items(n, items)
}

// ---- what the generator can turn into text ----

/// Only `FeStr` has a text.
pub open spec fn type_ok(t: Type) -> bool {
    t is FeStr
}

/// A statement the generator handles at indentation `n`: its types have
/// texts, the left side of an assignment is not an item, and functions
/// nest no deeper than the indentation can count.
pub open spec fn stmt_ok(n: nat, s: Statement) -> bool
    decreases s, 2nat,
{
    match s {
        Statement::Item(i) => item_ok(n, i),
        _ => partial_ok(s),
    }
}

/// A statement the generator handles without its `;`.
pub open spec fn partial_ok(s: Statement) -> bool
    decreases s, 1nat,
{
    match s {
        Statement::Item(_) => false,
        Statement::Expr(_) => true,
        Statement::Decl(d) => match d.explicit_type {
            Some(t) => type_ok(t),
            None => true,
        },
        Statement::Assign(a) => partial_ok(*a.lhs),
    }
}

/// An item the generator handles at indentation `n`.
pub open spec fn item_ok(n: nat, i: Item) -> bool
    decreases i, 1nat,
{
    match i {
        Item::FnDef(f) => fn_ok(n, f),
        _ => true,
    }
}

/// A function the generator handles at indentation `n`.
pub open spec fn fn_ok(n: nat, f: FnDef) -> bool
    decreases f, 0nat,
{
    &&& n < usize::MAX
    &&& forall|k: int| 0 <= k < f.params@.len() ==> type_ok(#[trigger] f.params@[k].param_type)
    &&& match f.return_type {
        Some(t) => type_ok(t),
        None => true,
    }
    &&& stmts_ok(n + 1, f.body@)
}

/// Statements the generator handles at indentation `n`.
pub open spec fn stmts_ok(n: nat, ss: Seq<Statement>) -> bool
    decreases ss, 0nat,
{
    if ss.len() == 0 {
        true
    } else {
        stmts_ok(n, ss.drop_last()) && stmt_ok(n, ss[ss.len() - 1])
    }
}

/// Statements are handled when each of them is.
pub proof fn lemma_stmts_ok(n: nat, ss: Seq<Statement>)
    ensures
        stmts_ok(n, ss) <==> forall|k: int| 0 <= k < ss.len() ==> stmt_ok(n, #[trigger] ss[k]),
    decreases ss.len(),
{
    if ss.len() > 0 {
        lemma_stmts_ok(n, ss.drop_last());
        assert forall|k: int| 0 <= k < ss.len() - 1 implies ss.drop_last()[k] == ss[k] by {}
    }
}

/// Items the generator handles at indentation `n`.
pub open spec fn items_ok(n: nat, items: Seq<Item>) -> bool {
    forall|k: int| 0 <= k < items.len() ==> item_ok(n, #[trigger] items[k])
}

/// Indentation is four spaces a level.
pub proof fn lemma_padding_len(n: nat)
    ensures
        padding_spec(n).len() == 4 * n,
        forall|i: int| 0 <= i < padding_spec(n).len() ==> #[trigger] padding_spec(n)[i] == ' ',
    decreases n,
{
    reveal_strlit("    ");
    if n > 0 {
        lemma_padding_len((n - 1) as nat);
        let p = padding_spec((n - 1) as nat);
        assert forall|i: int| 0 <= i < padding_spec(n).len() implies #[trigger] padding_spec(n)[i] == ' ' by {
            if i < p.len() {
                assert(padding_spec(n)[i] == p[i]);
            } else {
                assert(padding_spec(n)[i] == "    "@[i - p.len()]);
            }
        }
    }
}

} // verus!

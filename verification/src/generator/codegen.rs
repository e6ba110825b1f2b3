//! The Rust text of each piece of the Rust syntax tree (see `spec` for
//! the text each function gives).
use crate::generator::laws::{decl_name, lemma_decl_binds_as_declared};
use vstd::prelude::*;

use crate::generator::rust_ast::{
    AssignType, Decl, DeclPattern, Expr, FnCall, FnDef, FnDefParam, Item, Literal, Mod,
    RustFileAst, StaticAccess, Statement, Type, Use, UsePattern,
};
use crate::generator::spec::{ fn_ok, item_ok, items_ok, lemma_stmts_ok, padding_spec, partial_ok, rs_args,
    rs_expr, rs_fn_def, rs_item, rs_items, rs_file, rs_lit, rs_param, rs_params, rs_partial,
    rs_stmt, rs_stmts, rs_tuple, rs_type, rs_use_fields, rs_use_pattern, stmt_ok,
    type_ok,
};
use vstd::string::StringExecFns;

verus! {

/// Generates text at an indentation level.
pub struct Generator {
    pub indent_count: usize,
}

impl Generator {
    /// A generator at indentation 0.
    pub fn new() -> (g: Generator)
        ensures
            g.indent_count == 0,
    {
        Generator { indent_count: 0 }
    }

    /// Four spaces for each level of indentation.
    pub fn padding(&self) -> (s: String)
        ensures
            s@ == padding_spec(self.indent_count as nat),
    {
        let mut left_pad = String::new();
        let mut i: usize = 0;
        while i < self.indent_count
            invariant
                i <= self.indent_count,
                left_pad@ == padding_spec(i as nat),
            decreases self.indent_count - i,
        {
            left_pad.append("    ");
            i = i + 1;
        }
        left_pad
    }
}

/// The text of a type; only `FeStr` has one.
pub fn gen_rs_for_type(_g: &mut Generator, typ: Type) -> (s: String)
    requires
        type_ok(typ),
    ensures
        s@ == rs_type(typ),
        *final(_g) == *old(_g),
{
    String::from_str("FeStr")
}

/// The text of a use pattern.
fn gen_rs_for_use_pattern(use_pattern: UsePattern) -> (s: String)
    ensures
        s@ == rs_use_pattern(use_pattern),
    decreases use_pattern,
{
    match use_pattern {
        UsePattern::Id(id) => id,
        UsePattern::Path(path) => {
            let mut rs = path.parent;
            rs.append("::");
            let rhs = gen_rs_for_use_pattern(*path.rhs);
            rs.append(rhs.as_str());
            rs
        },
        UsePattern::Wild => String::from_str("*"),
        UsePattern::Destruct(destruct) => {
            let ghost whole = use_pattern;
            let ghost fs = destruct.fields@;
            let mut fields = String::new();
            let mut first = true;
            assert forall|k: int| 0 <= k < fs.len() implies decreases_to!(whole => fs[k]) by {
                assert(decreases_to!(whole => destruct));
                assert(decreases_to!(destruct => destruct.fields));
                assert(decreases_to!(destruct.fields => destruct.fields@));
            }
            for p in it: destruct.fields
                invariant
                    forall|k: int| 0 <= k < fs.len() ==> decreases_to!(whole => fs[k]),
                    whole == use_pattern,
                    it.seq() == fs,
                    whole == UsePattern::Destruct(destruct),
                    fs == destruct.fields@,
                    first == (it.index() == 0),
                    fields@ == rs_use_fields(fs.take(it.index() as int)),
            {
                let ghost i = it.index();
                assert(decreases_to!(whole => p));
                let ghost pg = p;
                if !first {
                    fields.append(", ");
                }
                let t = gen_rs_for_use_pattern(p);
                fields.append(t.as_str());
                first = false;
                proof {
                    let t1 = fs.take(i + 1);
                    assert(t1.drop_last() =~= fs.take(i as int));
                    if i == 0 {
                        assert(fs.take(0) =~= Seq::<UsePattern>::empty());
                    }
                }
            }
            assert(fs.take(fs.len() as int) =~= fs);
            let mut rs = String::from_str("{");
            rs.append(fields.as_str());
            rs.append("}");
            rs
        },
    }
}

/// The text of an expression.
pub fn gen_rs_for_expr(generator: &mut Generator, expr: Expr) -> (s: String)
    ensures
        s@ == rs_expr(expr),
        *final(generator) == *old(generator),
    decreases expr,
{
    match expr {
        Expr::Literal(literal) => gen_rs_for_lit(generator, literal),
        Expr::FnCall(fn_call) => gen_rs_for_fn_call(generator, fn_call),
        Expr::StaticAccess(static_access) => gen_rs_for_static_access(generator, static_access),
        Expr::IdentLookup(ident_lookup) => ident_lookup,
        Expr::SharedRef(e) => {
            let mut rs = String::from_str("&");
            let t = gen_rs_for_expr(generator, *e);
            rs.append(t.as_str());
            rs
        },
        Expr::MutRef(e) => {
            let mut rs = String::from_str("&mut ");
            let t = gen_rs_for_expr(generator, *e);
            rs.append(t.as_str());
            rs
        },
        Expr::Deref(e) => {
            let mut rs = String::from_str("*");
            let t = gen_rs_for_expr(generator, *e);
            rs.append(t.as_str());
            rs
        },
    }
}

/// The text of a call: its name and its arguments, joined by `, `.
pub fn gen_rs_for_fn_call(generator: &mut Generator, fn_call: FnCall) -> (s: String)
    ensures
        s@ == rs_expr(Expr::FnCall(fn_call)),
        *final(generator) == *old(generator),
    decreases fn_call,
{
    let ghost whole = fn_call;
    let ghost es = fn_call.args@;
    let mut rs = fn_call.name;
    rs.append("(");
    let mut args = String::new();
    let mut first = true;
    assert forall|k: int| 0 <= k < es.len() implies decreases_to!(whole => es[k]) by {
        assert(decreases_to!(fn_call => fn_call.args));
        assert(decreases_to!(fn_call.args => fn_call.args@));
    }
    for e in it: fn_call.args
        invariant
            forall|k: int| 0 <= k < es.len() ==> decreases_to!(whole => es[k]),
            whole == fn_call,
            it.seq() == es,
            first == (it.index() == 0),
            args@ == rs_args(es.take(it.index() as int)),
            *generator == *old(generator),
    {
        let ghost i = it.index();
        assert(decreases_to!(whole => e));
        if !first {
            args.append(", ");
        }
        let t = gen_rs_for_expr(generator, e);
        args.append(t.as_str());
        first = false;
        proof {
            assert(es.take(i + 1).drop_last() =~= es.take(i as int));
        }
    }
    assert(es.take(es.len() as int) =~= es);
    rs.append(args.as_str());
    rs.append(")");
    rs
}

/// The text of a literal; a string becomes a static `FeStr`.
pub fn gen_rs_for_lit(generator: &mut Generator, literal: Literal) -> (s: String)
    ensures
        s@ == rs_lit(literal),
        *final(generator) == *old(generator),
    decreases literal,
{
    let ghost whole = literal;
    match literal {
        Literal::Bool(is_true) => gen_rs_for_lit_bool(generator, is_true),
        Literal::String(string) => gen_rs_for_lit_string(generator, string),
        Literal::Tuple(exprs) => {
            let ghost es = exprs@;
            let mut rs = String::from_str("(");
            let mut items = String::new();
            assert forall|k: int| 0 <= k < es.len() implies decreases_to!(whole => es[k]) by {
                assert(decreases_to!(literal => exprs));
                assert(decreases_to!(exprs => exprs@));
            }
            for e in it: exprs
                invariant
                    forall|k: int| 0 <= k < es.len() ==> decreases_to!(whole => es[k]),
                    whole == literal,
                    it.seq() == es,
                    items@ == rs_tuple(es.take(it.index() as int)),
                    *generator == *old(generator),
            {
                let ghost i = it.index();
                assert(decreases_to!(whole => e));
                let t = gen_rs_for_expr(generator, e);
                items.append(t.as_str());
                items.append(",");
                proof {
                    assert(es.take(i + 1).drop_last() =~= es.take(i as int));
                }
            }
            assert(es.take(es.len() as int) =~= es);
            rs.append(items.as_str());
            rs.append(")");
            rs
        },
        Literal::SomeOption(e) => {
            let mut rs = String::from_str("Some(");
            let t = gen_rs_for_expr(generator, *e);
            rs.append(t.as_str());
            rs.append(")");
            rs
        },
        Literal::NoneOption => String::from_str("None"),
    }
}

/// `true` or `false`.
pub fn gen_rs_for_lit_bool(_g: &mut Generator, is_true: bool) -> (s: String)
    ensures
        s@ == rs_lit(Literal::Bool(is_true)),
        *final(_g) == *old(_g),
{
    if is_true {
        String::from_str("true")
    } else {
        String::from_str("false")
    }
}

/// A string literal as a static `FeStr`.
pub fn gen_rs_for_lit_string(_g: &mut Generator, string: String) -> (s: String)
    ensures
        s@ == rs_lit(Literal::String(string)),
        *final(_g) == *old(_g),
{
    let mut rs = String::from_str("FeStr::from_static(\"");
    rs.append(string.as_str());
    rs.append("\")");
    rs
}

/// `lhs::rhs`.
pub fn gen_rs_for_static_access(generator: &mut Generator, static_access: StaticAccess) -> (s: String)
    ensures
        s@ == rs_expr(Expr::StaticAccess(static_access)),
        *final(generator) == *old(generator),
    decreases static_access,
{
    let mut rs = static_access.lhs;
    rs.append("::");
    let t = gen_rs_for_expr(generator, *static_access.rhs);
    rs.append(t.as_str());
    rs
}

/// The text of a parameter: `mut ` unless it is a reference, its name,
/// and its type.
pub fn gen_rs_for_fn_def_param(generator: &mut Generator, param: FnDefParam) -> (s: String)
    requires
        type_ok(param.param_type),
    ensures
        s@ == rs_param(param),
        *final(generator) == *old(generator),
{
    let mut rs = String::new();
    match param.param_type {
        Type::SharedRef(_) | Type::MutRef(_) => {},
        _ => {
            rs.append("mut ");
        },
    }
    rs.append(param.name.as_str());
    rs.append(": ");
    let t = gen_rs_for_type(generator, param.param_type);
    rs.append(t.as_str());
    rs
}

/// The text of a function at the generator's indentation: its body one
/// level deeper, its closing brace at the generator's indentation.
pub fn gen_rs_for_fn_def(generator: &mut Generator, fn_def: FnDef) -> (s: String)
    requires
        fn_ok(old(generator).indent_count as nat, fn_def),
    ensures
        s@ == rs_fn_def(old(generator).indent_count as nat, fn_def),
        *final(generator) == *old(generator),
    decreases fn_def,
{
    let ghost n = generator.indent_count as nat;
    let ghost whole = fn_def;
    let ghost ps = fn_def.params@;
    let ghost ss = fn_def.body@;
    let mut rs = String::new();
    if fn_def.is_public {
        rs.append("pub ");
    }
    rs.append("fn ");
    rs.append(fn_def.name.as_str());
    rs.append("(");
    let mut params = String::new();
    for param in it: fn_def.params
        invariant
            it.seq() == ps,
            forall|k: int| 0 <= k < ps.len() ==> type_ok(#[trigger] ps[k].param_type),
            params@ == rs_params(ps.take(it.index() as int)),
            *generator == *old(generator),
    {
        let ghost i = it.index();
        let ghost pg = param;
        assert(type_ok(ps[i as int].param_type));
        let t = gen_rs_for_fn_def_param(generator, param);
        params.append(t.as_str());
        params.append(", ");
        proof {
            assert(ps.take(i + 1).drop_last() =~= ps.take(i as int));
        }
    }
    assert(ps.take(ps.len() as int) =~= ps);
    rs.append(params.as_str());
    rs.append(")");
    match fn_def.return_type {
        Some(return_type) => {
            rs.append(" -> ");
            let t = gen_rs_for_type(generator, return_type);
            rs.append(t.as_str());
        },
        None => {},
    }
    rs.append(" {\n");
    generator.indent_count = generator.indent_count + 1;
    let mut body = String::new();
    proof {
        lemma_stmts_ok(n + 1, ss);
    }
    assert forall|k: int| 0 <= k < ss.len() implies decreases_to!(whole => ss[k]) by {
        assert(decreases_to!(fn_def => fn_def.body));
        assert(decreases_to!(fn_def.body => fn_def.body@));
    }
    for stmt in it: fn_def.body
        invariant
            forall|k: int| 0 <= k < ss.len() ==> decreases_to!(whole => ss[k]),
            whole == fn_def,
            forall|k: int| 0 <= k < ss.len() ==> stmt_ok(n + 1, #[trigger] ss[k]),
            it.seq() == ss,
            generator.indent_count == n + 1,
            body@ == rs_stmts(n + 1, ss.take(it.index() as int)),
    {
        let ghost i = it.index();
        assert(decreases_to!(whole => stmt));
        assert(stmt_ok(n + 1, ss[i as int]));
        let t = gen_rs_for_stmt(generator, stmt);
        body.append(t.as_str());
        proof {
            assert(ss.take(i + 1).drop_last() =~= ss.take(i as int));
        }
    }
    assert(ss.take(ss.len() as int) =~= ss);
    rs.append(body.as_str());
    generator.indent_count = generator.indent_count - 1;
    let pad = generator.padding();
    rs.append(pad.as_str());
    rs.append("}\n");
    rs
}

/// The text of a statement at the generator's indentation: an item as it
/// is, anything else followed by `;`.
pub fn gen_rs_for_stmt(generator: &mut Generator, stmt: Statement) -> (s: String)
    requires
        stmt_ok(old(generator).indent_count as nat, stmt),
    ensures
        s@ == rs_stmt(old(generator).indent_count as nat, stmt),
        *final(generator) == *old(generator),
    decreases stmt,
{
    let mut rs = generator.padding();
    match stmt {
        Statement::Item(item) => {
            let t = gen_rs_for_item(generator, item);
            rs.append(t.as_str());
            rs
        },
        _ => {
            let t = gen_rs_for_partial_stmt(generator, stmt);
            rs.append(t.as_str());
            rs.append(";\n");
            rs
        },
    }
}

/// The text of a statement without its `;`.
fn gen_rs_for_partial_stmt(generator: &mut Generator, stmt: Statement) -> (s: String)
    requires
        partial_ok(stmt),
    ensures
        s@ == rs_partial(stmt),
        *final(generator) == *old(generator),
        stmt matches Statement::Decl(d) ==> if d.is_const {
            s@.take(4 + decl_name(d).len() as int) == "let "@ + decl_name(d)
        } else {
            s@.take(8 + decl_name(d).len() as int) == "let mut "@ + decl_name(d)
        },
    decreases stmt,
{
    proof {
        if stmt is Decl {
            lemma_decl_binds_as_declared(stmt->Decl_0);
        }
    }
    let mut rs = String::new();
    match stmt {
        Statement::Item(_) => {},
        Statement::Expr(expr) => {
            let t = gen_rs_for_expr(generator, expr);
            rs.append(t.as_str());
        },
        Statement::Decl(decl) => {
            if decl.is_const {
                rs.append("let ");
            } else {
                rs.append("let mut ");
            }
            let p = gen_rs_for_decl_pattern(generator, decl.decl_pattern);
            rs.append(p.as_str());
            match decl.explicit_type {
                Some(explicit_type) => {
                    rs.append(": ");
                    let t = gen_rs_for_type(generator, explicit_type);
                    rs.append(t.as_str());
                },
                None => {},
            }
        },
        Statement::Assign(assign) => {
            let t = gen_rs_for_partial_stmt(generator, *assign.lhs);
            rs.append(t.as_str());
            match assign.assign_type {
                AssignType::Eq => rs.append(" = "),
            }
            let e = gen_rs_for_expr(generator, assign.rhs);
            rs.append(e.as_str());
        },
    }
    rs
}

/// The name a declaration binds.
pub fn gen_rs_for_decl_pattern(_g: &mut Generator, decl_pattern: DeclPattern) -> (s: String)
    ensures
        s@ == match decl_pattern {
            DeclPattern::Id(id) => id@,
        },
        *final(_g) == *old(_g),
{
    match decl_pattern {
        DeclPattern::Id(id) => id,
    }
}

/// The text of an item at the generator's indentation.
fn gen_rs_for_item(generator: &mut Generator, item: Item) -> (s: String)
    requires
        item_ok(old(generator).indent_count as nat, item),
    ensures
        s@ == rs_item(old(generator).indent_count as nat, item),
        *final(generator) == *old(generator),
    decreases item,
{
    match item {
        Item::Use(use_node) => gen_rs_for_use(generator, use_node),
        Item::Mod(mod_node) => gen_rs_for_mod(generator, mod_node),
        Item::FnDef(fn_def) => gen_rs_for_fn_def(generator, fn_def),
    }
}

/// `pub? mod name;`
fn gen_rs_for_mod(_g: &mut Generator, mod_node: Mod) -> (s: String)
    ensures
        s@ == rs_item(old(_g).indent_count as nat, Item::Mod(mod_node)),
        *final(_g) == *old(_g),
{
    let mut rs = String::new();
    if mod_node.is_public {
        rs.append("pub ");
    }
    rs.append("mod ");
    rs.append(mod_node.name.as_str());
    rs.append(";\n");
    rs
}

/// `pub? use pattern;`
fn gen_rs_for_use(_g: &mut Generator, use_node: Use) -> (s: String)
    ensures
        s@ == rs_item(old(_g).indent_count as nat, Item::Use(use_node)),
        *final(_g) == *old(_g),
{
    let mut rs = String::new();
    if use_node.is_public {
        rs.append("pub ");
    }
    rs.append("use ");
    let p = gen_rs_for_use_pattern(use_node.use_pattern);
    rs.append(p.as_str());
    rs.append(";\n");
    rs
}

/// The text of a file: the prelude `use`, then each item indented.
pub fn gen_rs_for_file(generator: &mut Generator, file_ast: RustFileAst) -> (s: String)
    requires
        items_ok(old(generator).indent_count as nat, file_ast.items@),
    ensures
        s@ == rs_file(old(generator).indent_count as nat, file_ast.items@),
        *final(generator) == *old(generator),
{
    let ghost n = generator.indent_count as nat;
    let ghost items = file_ast.items@;
    let mut rs = String::from_str("use crate::ferrum::prelude::*;\n\n");
    let mut body = String::new();
    for item in it: file_ast.items
        invariant
            it.seq() == items,
            items_ok(n, items),
            generator.indent_count == n,
            *generator == *old(generator),
            body@ == rs_items(n, items.take(it.index() as int)),
    {
        let ghost i = it.index();
        assert(item_ok(n, items[i as int]));
        let pad = generator.padding();
        body.append(pad.as_str());
        let t = gen_rs_for_item(generator, item);
        body.append(t.as_str());
        proof {
            assert(items.take(i + 1).drop_last() =~= items.take(i as int));
        }
    }
    assert(items.take(items.len() as int) =~= items);
    rs.append(body.as_str());
    rs
}

} // verus!

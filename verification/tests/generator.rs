use oxidize::generator::codegen::{gen_rs_for_expr, gen_rs_for_file, Generator};
use oxidize::generator::project::{generate_cargo_project, generate_rust_code, GenNode};
use oxidize::generator::rust_ast::{
    Assign, AssignType, Decl, DeclPattern, Expr, FnCall, FnDef, FnDefParam, Item, Literal, Mod,
    RustFileAst, RustModNode, RustModNodeFile, RustProject, StaticAccess, Statement, Type, Use,
    UsePattern, UsePatternDestruct, UsePatternPath,
};

fn s(t: &str) -> String {
    String::from(t)
}

fn sample_file() -> RustFileAst {
    let inner = FnDef {
        is_public: false,
        name: s("inner"),
        params: vec![],
        return_type: None,
        body: vec![Statement::Expr(Expr::Literal(Literal::NoneOption))],
    };
    let main = FnDef {
        is_public: true,
        name: s("main"),
        params: vec![FnDefParam { name: s("s"), param_type: Type::FeStr }],
        return_type: Some(Type::FeStr),
        body: vec![
            Statement::Decl(Decl { is_const: false, decl_pattern: DeclPattern::Id(s("x")), explicit_type: Some(Type::FeStr) }),
            Statement::Assign(Assign {
                lhs: Box::new(Statement::Expr(Expr::IdentLookup(s("x")))),
                assign_type: AssignType::Eq,
                rhs: Expr::Literal(Literal::String(s("hi"))),
            }),
            Statement::Expr(Expr::FnCall(FnCall {
                name: s("print"),
                args: vec![Expr::IdentLookup(s("x")), Expr::Literal(Literal::Bool(true))],
            })),
            Statement::Item(Item::FnDef(inner)),
        ],
    };
    RustFileAst {
        items: vec![
            Item::Use(Use {
                is_public: false,
                use_pattern: UsePattern::Path(UsePatternPath {
                    parent: s("std"),
                    rhs: Box::new(UsePattern::Destruct(UsePatternDestruct { fields: vec![UsePattern::Id(s("a")), UsePattern::Wild] })),
                }),
            }),
            Item::Mod(Mod { is_public: true, name: s("m") }),
            Item::FnDef(main),
        ],
    }
}

const SAMPLE_TEXT: &str = "use crate::ferrum::prelude::*;\n\nuse std::{a, *};\npub mod m;\npub fn main(mut s: FeStr, ) -> FeStr {\n    let mut x: FeStr;\n    x = FeStr::from_static(\"hi\");\n    print(x, true);\n    fn inner() {\n        None;\n    }\n}\n";

#[test]
fn generates_a_file() {
    let mut g = Generator::new();
    let text = gen_rs_for_file(&mut g, sample_file());
    assert_eq!(text, SAMPLE_TEXT);
    assert_eq!(g.indent_count, 0);
}

#[test]
fn padding_is_four_spaces_a_level() {
    let g = Generator { indent_count: 3 };
    assert_eq!(g.padding(), "            ");
    assert_eq!(Generator::new().padding(), "");
}

#[test]
fn generates_expressions() {
    let mut g = Generator::new();
    let e = Expr::Literal(Literal::Tuple(vec![Expr::Literal(Literal::Bool(false)), Expr::Literal(Literal::String(s("a")))]));
    assert_eq!(gen_rs_for_expr(&mut g, e), "(false,FeStr::from_static(\"a\"),)");
    let e = Expr::StaticAccess(StaticAccess { lhs: s("a"), rhs: Box::new(Expr::IdentLookup(s("b"))) });
    assert_eq!(gen_rs_for_expr(&mut g, e), "a::b");
    assert_eq!(gen_rs_for_expr(&mut g, Expr::SharedRef(Box::new(Expr::IdentLookup(s("x"))))), "&x");
    assert_eq!(gen_rs_for_expr(&mut g, Expr::MutRef(Box::new(Expr::IdentLookup(s("x"))))), "&mut x");
    assert_eq!(gen_rs_for_expr(&mut g, Expr::Deref(Box::new(Expr::IdentLookup(s("x"))))), "*x");
    assert_eq!(gen_rs_for_expr(&mut g, Expr::Literal(Literal::SomeOption(Box::new(Expr::IdentLookup(s("x")))))), "Some(x)");
    assert_eq!(gen_rs_for_expr(&mut g, Expr::FnCall(FnCall { name: s("f"), args: vec![] })), "f()");
}

fn sample_project() -> RustProject {
    RustProject {
        main_file: RustFileAst { items: vec![Item::Mod(Mod { is_public: false, name: s("util") })] },
        siblings: vec![(
            s("util"),
            RustModNode {
                name: s("util"),
                file: RustModNodeFile::Dir(vec![(
                    s("a"),
                    RustModNode { name: s("a"), file: RustModNodeFile::File(RustFileAst { items: vec![] }) },
                )]),
            },
        )],
    }
}

#[test]
fn generates_a_project_in_the_shape_of_its_modules() {
    let g = generate_rust_code(sample_project());
    assert_eq!(g.main_file.name, "main");
    assert_eq!(g.main_file.code, "use crate::ferrum::prelude::*;\n\nmod util;\n");
    assert_eq!(g.siblings.len(), 1);
    match &g.siblings[0] {
        GenNode::Dir(d) => {
            assert_eq!(d.name, "util");
            assert_eq!(d.files.len(), 1);
            match &d.files[0] {
                GenNode::File(f) => {
                    assert_eq!(f.name, "a");
                    assert_eq!(f.code, "use crate::ferrum::prelude::*;\n\n");
                },
                GenNode::Dir(_) => panic!("a file"),
            }
        },
        GenNode::File(_) => panic!("a directory"),
    }
}

#[test]
fn a_cargo_project_declares_the_runtime_module_first() {
    let g = generate_cargo_project(sample_project());
    assert_eq!(g.main_file.code, "mod ferrum;\nuse crate::ferrum::prelude::*;\n\nmod util;\n");
}

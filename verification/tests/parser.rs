use oxidize::lexer::lex_into_tokens;
use oxidize::lexer::token::TokenType;
use oxidize::parser::ast::{
    DestructInitUsePattern, Expr, FileType, FnDefBody, InitUsePattern, Item, Literal, PatternPrefix,
    Statement, UsePattern,
};
use oxidize::parser::items::{parse_rust_bindings_to_ast, parse_to_ast};
use oxidize::parser::ParseError;

fn parse(text: &str) -> Result<oxidize::parser::ast::FerrumFileAst, ParseError> {
    parse_to_ast(lex_into_tokens(String::from(text)))
}

#[test]
fn parses_a_declaration_with_a_string() {
    let file = parse("let x = \"hi\"\n").unwrap();
    assert_eq!(file.file_type, FileType::Ferrum);
    assert_eq!(file.items.len(), 1);
    match &file.items[0].item {
        Item::Statement(s) => match &s.statement {
            Statement::Decl(d) => {
                assert!(!d.is_const);
                assert_eq!(d.decl_token.literal, "let");
                assert!(d.explicit_type.is_none());
                match &d.rhs_expr {
                    Some((eq, e)) => {
                        assert_eq!(eq.token_type, TokenType::Equals);
                        match &e.expr {
                            Expr::Literal(l) => assert!(matches!(&l.literal, Literal::String(s) if s == "hi")),
                            _ => panic!("a string literal"),
                        }
                    },
                    None => panic!("a right-hand side"),
                }
            },
            _ => panic!("a declaration"),
        },
        _ => panic!("a statement"),
    }
}

#[test]
fn parses_a_public_function_with_a_call_body() {
    let file = parse("pub fn main() => print(\"hi\")\n").unwrap();
    assert_eq!(file.items.len(), 1);
    match &file.items[0].item {
        Item::FnDef(f) => {
            assert!(f.pub_token.is_some());
            assert_eq!(f.name.literal, "main");
            assert!(f.params.is_empty());
            assert!(f.return_type.is_none());
            match &f.body {
                FnDefBody::Stmt(s) => match &s.stmt.item {
                    Item::Statement(st) => match &st.statement {
                        Statement::Expr(e) => match &e.expr {
                            Expr::FnCall(c) => {
                                assert_eq!(c.name.literal, "print");
                                assert_eq!(c.args.len(), 1);
                            },
                            _ => panic!("a call"),
                        },
                        _ => panic!("an expression"),
                    },
                    _ => panic!("a statement"),
                },
                _ => panic!("a statement body"),
            }
        },
        _ => panic!("a function"),
    }
}

#[test]
fn parses_a_use_from_the_root_with_a_destructured_list() {
    let file = parse("use ~/utils::{self, a}\n").unwrap();
    match &file.items[0].item {
        Item::Use(u) => {
            assert!(u.public.is_none());
            assert!(matches!(u.pattern_prefix, Some(PatternPrefix::Root(_))));
            match &u.use_pattern.use_pattern {
                InitUsePattern::Path(p) => {
                    assert_eq!(p.parent_name.literal, "utils");
                    match &p.rhs.use_pattern {
                        UsePattern::Destruct(d) => {
                            assert_eq!(d.patterns.len(), 2);
                        },
                        _ => panic!("a list"),
                    }
                },
                _ => panic!("a path"),
            }
        },
        _ => panic!("a use"),
    }
}

#[test]
fn parses_parent_directory_prefixes() {
    let file = parse("use ../../a\n").unwrap();
    match &file.items[0].item {
        Item::Use(u) => match &u.pattern_prefix {
            Some(PatternPrefix::Rel(r)) => assert_eq!(r.parent_dirs.len(), 2),
            _ => panic!("a relative prefix"),
        },
        _ => panic!("a use"),
    }
}

#[test]
fn a_block_body_holds_items_up_to_the_semicolon() {
    let file = parse("fn f(a: string)\n    let b = a\n    b\n;\n").unwrap();
    match &file.items[0].item {
        Item::FnDef(f) => {
            assert_eq!(f.params.len(), 1);
            assert_eq!(f.body.get_items().len(), 2);
        },
        _ => panic!("a function"),
    }
}

#[test]
fn two_statements_on_one_line_are_an_error() {
    let r = parse("x y\n");
    assert!(matches!(r, Err(ParseError::NotExpectedNewline(t)) if t.literal == "y"));
}

#[test]
fn a_missing_token_is_an_error() {
    let r = parse("let\n");
    assert!(matches!(r, Err(ParseError::IndexOutOfBounds)));
}

#[test]
fn a_number_literal_is_not_supported() {
    let r = parse("let x = 5\n");
    assert!(matches!(r, Err(ParseError::Unsupported)));
}

#[test]
fn a_use_after_another_item_is_not_supported() {
    let r = parse("x\nuse y\n");
    assert!(matches!(r, Err(ParseError::Unsupported)));
}

#[test]
fn bindings_files_are_marked_as_such() {
    let file = parse_rust_bindings_to_ast(lex_into_tokens(String::from("pub fn f() => g()\n"))).unwrap();
    assert_eq!(file.file_type, FileType::LocalRustBind);
}

#[test]
fn destructured_patterns_normalize_self_to_a_name() {
    let file = parse("use m::{self}\n").unwrap();
    match file.items.into_iter().next().unwrap().item {
        Item::Use(u) => match u.use_pattern.use_pattern {
            InitUsePattern::Path(p) => match p.rhs.use_pattern {
                UsePattern::Destruct(d) => {
                    let first = d.patterns.take_values().into_iter().next().unwrap();
                    assert!(matches!(first.use_pattern, DestructInitUsePattern::Self_(_)));
                    let n = first.normalize();
                    assert!(matches!(n.use_pattern, UsePattern::Id(t) if t.literal == "self"));
                },
                _ => panic!("a list"),
            },
            _ => panic!("a path"),
        },
        _ => panic!("a use"),
    }
}

#[test]
fn a_failed_parse_leaves_the_parser_where_it_failed() {
    let mut parser = oxidize::parser::Parser::new(true, lex_into_tokens(String::from(")\n")));
    let r = oxidize::parser::expr::parse_expr_layer_3(&mut parser);
    assert!(matches!(r, Err(ParseError::UnexpectedToken(t)) if t.token_type == TokenType::CloseParenthesis));
    assert_eq!(parser.index, 0);
}

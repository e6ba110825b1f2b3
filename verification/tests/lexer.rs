use oxidize::lexer::token::{Keyword, Literal, Token, TokenType};
use oxidize::lexer::chars::{classify_char, CharClass};
use oxidize::lexer::{lex_classified, lex_into_tokens, try_lex_into_tokens};
use oxidize::span::{Span, SpanPoint};

fn span(l1: usize, c1: usize, l2: usize, c2: usize) -> Span {
    Span { from: SpanPoint { line: l1, column: c1 }, to: SpanPoint { line: l2, column: c2 } }
}

fn kinds(tokens: &[Token]) -> Vec<TokenType> {
    tokens.iter().map(|t| t.token_type).collect()
}

fn texts(tokens: &[Token]) -> Vec<String> {
    tokens.iter().map(|t| t.literal.clone()).collect()
}

#[test]
fn lexes_a_declaration() {
    let tokens = lex_into_tokens(String::from("let x = \"hi\"\n"));
    assert_eq!(
        kinds(&tokens),
        vec![
            TokenType::Keyword(Keyword::Let),
            TokenType::Identifier,
            TokenType::Equals,
            TokenType::Literal(Literal::String),
        ]
    );
    assert_eq!(texts(&tokens), vec!["let", "x", "=", "hi"]);
    assert_eq!(tokens[0].span, span(1, 1, 1, 3));
    assert_eq!(tokens[1].span, span(1, 5, 1, 5));
    assert_eq!(tokens[2].span, span(1, 7, 1, 7));
    assert_eq!(tokens[3].span, span(1, 9, 1, 12));
}

#[test]
fn comments_and_whitespace_give_no_tokens() {
    let tokens = lex_into_tokens(String::from("  /* a /* nested */ b */\t// rest of line\n\n"));
    assert!(tokens.is_empty());
}

#[test]
fn tokens_after_a_block_comment_keep_their_lines() {
    let tokens = lex_into_tokens(String::from("/* one\ntwo */ x\n"));
    assert_eq!(kinds(&tokens), vec![TokenType::Identifier]);
    assert_eq!(tokens[0].span, span(2, 8, 2, 8));
}

#[test]
fn lexes_two_character_operators() {
    let tokens = lex_into_tokens(String::from("a::b => c ..= d == e ?? f\n"));
    assert_eq!(
        kinds(&tokens),
        vec![
            TokenType::Identifier,
            TokenType::DoubleColon,
            TokenType::Identifier,
            TokenType::FatArrow,
            TokenType::Identifier,
            TokenType::DoublePeriodEquals,
            TokenType::Identifier,
            TokenType::DoubleEquals,
            TokenType::Identifier,
            TokenType::DoubleQuestionMark,
            TokenType::Identifier,
        ]
    );
    assert_eq!(tokens[1].literal, "::");
    assert_eq!(tokens[1].span, span(1, 2, 1, 3));
    assert_eq!(tokens[5].literal, "..=");
    assert_eq!(tokens[5].span, span(1, 11, 1, 13));
}

#[test]
fn words_become_keywords_literals_types_or_names() {
    let tokens = lex_into_tokens(String::from("pub fn Foo true none ok string my_name\n"));
    assert_eq!(
        kinds(&tokens),
        vec![
            TokenType::Keyword(Keyword::Pub),
            TokenType::Keyword(Keyword::Fn),
            TokenType::TypeName,
            TokenType::Literal(Literal::Bool(true)),
            TokenType::Literal(Literal::Option { is_some: false }),
            TokenType::Literal(Literal::Result { is_ok: true }),
            TokenType::Primitive(oxidize::lexer::token::Primitive::String),
            TokenType::Identifier,
        ]
    );
}

#[test]
fn a_decimal_point_is_kept_but_not_counted_in_the_span() {
    let tokens = lex_into_tokens(String::from("1.5\n"));
    assert_eq!(kinds(&tokens), vec![TokenType::Literal(Literal::Number)]);
    assert_eq!(tokens[0].literal, "1.5");
    assert_eq!(tokens[0].span, span(1, 1, 1, 2));
}

#[test]
fn a_number_stops_at_a_second_period() {
    let tokens = lex_into_tokens(String::from("1..2\n"));
    assert_eq!(
        kinds(&tokens),
        vec![TokenType::Literal(Literal::Number), TokenType::Period, TokenType::Literal(Literal::Number)]
    );
    assert_eq!(texts(&tokens), vec!["1", ".", "2"]);
}

#[test]
fn template_strings_are_split_at_their_expressions() {
    let tokens = lex_into_tokens(String::from("\"a{x}b\"\n"));
    assert_eq!(
        kinds(&tokens),
        vec![TokenType::TemplateStringStart, TokenType::Identifier, TokenType::TemplateStringEnd]
    );
    assert_eq!(texts(&tokens), vec!["a", "x", "b"]);
}

#[test]
fn a_line_comment_at_the_end_of_the_text_is_not_lexed() {
    assert!(try_lex_into_tokens(String::from("x // no newline")).is_none());
    assert!(try_lex_into_tokens(String::from("x // newline\n")).is_some());
}

fn before(a: SpanPoint, b: SpanPoint) -> bool {
    a.line < b.line || (a.line == b.line && a.column < b.column)
}

#[test]
fn tokens_come_in_source_order_without_overlapping() {
    let tokens = lex_into_tokens(String::from("fn f(a: int) {\n  /* c */ let s = \"x{a}y\" + 1.5\n}\n"));
    assert!(tokens.len() > 5);
    for t in &tokens {
        assert!(t.span.from.line >= 1 && t.span.from.column >= 1);
        assert!(!before(t.span.to, t.span.from));
    }
    for w in tokens.windows(2) {
        assert!(before(w[0].span.to, w[1].span.from));
    }
}

#[test]
fn classes_of_ascii_characters() {
    let k = classify_char('a');
    assert!(k.alphabetic && k.alphanumeric && !k.numeric && !k.uppercase && !k.whitespace);
    let k = classify_char('7');
    assert!(k.numeric && k.alphanumeric && !k.alphabetic);
    let k = classify_char('Q');
    assert!(k.uppercase && k.alphabetic);
    let k = classify_char('\t');
    assert!(k.whitespace && !k.alphanumeric);
    let k = classify_char('+');
    assert!(!k.whitespace && !k.numeric && !k.uppercase && !k.alphabetic && !k.alphanumeric);
}

#[test]
fn the_lexer_follows_the_classes_it_is_given() {
    let chars: Vec<char> = "\u{e9}t\u{e9} \u{663}\n".chars().collect();
    let classes: Vec<CharClass> = chars.iter().map(|c| classify_char(*c)).collect();
    let tokens = lex_classified(&chars, &classes).unwrap();
    assert_eq!(kinds(&tokens), vec![TokenType::Identifier, TokenType::Literal(Literal::Number)]);
    assert_eq!(texts(&tokens), vec!["\u{e9}t\u{e9}", "\u{663}"]);
    assert_eq!(tokens[0].span, span(1, 1, 1, 3));
    assert_eq!(tokens[1].span, span(1, 5, 1, 5));

    let plain = CharClass { whitespace: false, numeric: false, uppercase: false, alphabetic: false, alphanumeric: false };
    let digit = CharClass { numeric: true, alphanumeric: true, ..plain };
    let chars: Vec<char> = "x9\n".chars().collect();
    let tokens = lex_classified(&chars, &vec![digit, digit, plain]).unwrap();
    assert_eq!(kinds(&tokens), vec![TokenType::Literal(Literal::Number)]);
    assert_eq!(texts(&tokens), vec!["x9"]);
    assert!(lex_classified(&chars, &vec![plain, plain, plain]).is_none());
}

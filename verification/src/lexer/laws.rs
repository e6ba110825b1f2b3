//! What the lexer gives for the words of the language: each reserved
//! word its keyword, each literal word its literal, each primitive type
//! name its primitive, and any other word a name.
use vstd::prelude::*;

use crate::lexer::spec::word_kind;
use crate::lexer::token::{Keyword, Literal, Primitive, TokenType};

verus! {

/// How each reserved word of the language is spelled.
pub open spec fn keyword_text(k: Keyword) -> Seq<char> {
    match k {
        Keyword::Use => "use"@,
        Keyword::From => "from"@,
        Keyword::Pub => "pub"@,
        Keyword::Static => "static"@,
        Keyword::Fn => "fn"@,
        Keyword::Let => "let"@,
        Keyword::Const => "const"@,
        Keyword::Mut => "mut"@,
        Keyword::Struct => "struct"@,
        Keyword::Contract => "contract"@,
        Keyword::Enum => "enum"@,
        Keyword::Type => "type"@,
        Keyword::Alias => "alias"@,
        Keyword::Errors => "errors"@,
        Keyword::Self_ => "self"@,
        Keyword::Construct => "construct"@,
        Keyword::Impl => "impl"@,
        Keyword::Return => "return"@,
        Keyword::Yield => "yield"@,
        Keyword::If => "if"@,
        Keyword::Not => "not"@,
        Keyword::Or => "or"@,
        Keyword::And => "and"@,
        Keyword::Else => "else"@,
        Keyword::Match => "match"@,
        Keyword::Is => "is"@,
        Keyword::Loop => "loop"@,
        Keyword::While => "while"@,
        Keyword::For => "for"@,
        Keyword::In => "in"@,
        Keyword::Safe => "safe"@,
        Keyword::Async => "async"@,
        Keyword::Await => "await"@,
    }
}

/// How each primitive type of the language is spelled.
pub open spec fn primitive_text(p: Primitive) -> Seq<char> {
    match p {
        Primitive::Bool => "bool"@,
        Primitive::Bit => "bit"@,
        Primitive::Byte => "byte"@,
        Primitive::Uint => "uint"@,
        Primitive::Uint8 => "uint8"@,
        Primitive::Uint16 => "uint16"@,
        Primitive::Uint32 => "uint32"@,
        Primitive::Uint64 => "uint64"@,
        Primitive::Uint128 => "uint128"@,
        Primitive::BigUint => "biguint"@,
        Primitive::Int => "int"@,
        Primitive::Int8 => "int8"@,
        Primitive::Int16 => "int16"@,
        Primitive::Int32 => "int32"@,
        Primitive::Int64 => "int64"@,
        Primitive::Int128 => "int128"@,
        Primitive::BigInt => "bigint"@,
        Primitive::Float => "float"@,
        Primitive::Float32 => "float32"@,
        Primitive::Float64 => "float64"@,
        Primitive::BigNum => "bignum"@,
        Primitive::Char => "char"@,
        Primitive::String => "string"@,
    }
}

/// The word that spells a literal, for the literals that are words:
/// `true`, `false`, `some`, `none`, `ok` and `err`.
pub open spec fn literal_word(l: Literal) -> Option<Seq<char>> {
    match l {
        Literal::Bool(b) => Some(if b { "true"@ } else { "false"@ }),
        Literal::Option { is_some } => Some(if is_some { "some"@ } else { "none"@ }),
        Literal::Result { is_ok } => Some(if is_ok { "ok"@ } else { "err"@ }),
        _ => None,
    }
}

/// Every reserved word of the language lexes to its keyword, never to a
/// name. `mut` is the exception: the lexer reads it as a name, as it is
/// not among the words the lexer turns into keywords.
pub proof fn lemma_reserved_words_are_keywords(k: Keyword)
    requires
        k != Keyword::Mut,
    ensures
        word_kind(keyword_text(k)) == TokenType::Keyword(k),
{
    match k {
        Keyword::Use => {
            reveal_strlit("true");
            assert("true"@.len() == 4);
            reveal_strlit("false");
            assert("false"@.len() == 5);
            reveal_strlit("some");
            assert("some"@.len() == 4);
            reveal_strlit("none");
            assert("none"@.len() == 4);
            reveal_strlit("ok");
            assert("ok"@.len() == 2);
            reveal_strlit("err");
            assert("err"@.len() == 3);
            reveal_strlit("use");
            assert("use"@.len() == 3);
            assert("use"@[0] != "err"@[0]);
        },
        Keyword::From => {
            reveal_strlit("true");
            assert("true"@.len() == 4);
            reveal_strlit("false");
            assert("false"@.len() == 5);
            reveal_strlit("some");
            assert("some"@.len() == 4);
            reveal_strlit("none");
            assert("none"@.len() == 4);
            reveal_strlit("ok");
            assert("ok"@.len() == 2);
            reveal_strlit("err");
            assert("err"@.len() == 3);
            reveal_strlit("use");
            assert("use"@.len() == 3);
            reveal_strlit("from");
            assert("from"@.len() == 4);
            assert("from"@[0] != "true"@[0]);
            assert("from"@[0] != "some"@[0]);
            assert("from"@[0] != "none"@[0]);
        },
        Keyword::Pub => {
            reveal_strlit("true");
            assert("true"@.len() == 4);
            reveal_strlit("false");
            assert("false"@.len() == 5);
            reveal_strlit("some");
            assert("some"@.len() == 4);
            reveal_strlit("none");
            assert("none"@.len() == 4);
            reveal_strlit("ok");
            assert("ok"@.len() == 2);
            reveal_strlit("err");
            assert("err"@.len() == 3);
            reveal_strlit("use");
            assert("use"@.len() == 3);
            reveal_strlit("from");
            assert("from"@.len() == 4);
            reveal_strlit("pub");
            assert("pub"@.len() == 3);
            assert("pub"@[0] != "err"@[0]);
            assert("pub"@[0] != "use"@[0]);
        },
        Keyword::Static => {
            reveal_strlit("true");
            assert("true"@.len() == 4);
            reveal_strlit("false");
            assert("false"@.len() == 5);
            reveal_strlit("some");
            assert("some"@.len() == 4);
            reveal_strlit("none");
            assert("none"@.len() == 4);
            reveal_strlit("ok");
            assert("ok"@.len() == 2);
            reveal_strlit("err");
            assert("err"@.len() == 3);
            reveal_strlit("use");
            assert("use"@.len() == 3);
            reveal_strlit("from");
            assert("from"@.len() == 4);
            reveal_strlit("pub");
            assert("pub"@.len() == 3);
            reveal_strlit("static");
            assert("static"@.len() == 6);
        },
        Keyword::Fn => {
            reveal_strlit("true");
            assert("true"@.len() == 4);
            reveal_strlit("false");
            assert("false"@.len() == 5);
            reveal_strlit("some");
            assert("some"@.len() == 4);
            reveal_strlit("none");
            assert("none"@.len() == 4);
            reveal_strlit("ok");
            assert("ok"@.len() == 2);
            reveal_strlit("err");
            assert("err"@.len() == 3);
            reveal_strlit("use");
            assert("use"@.len() == 3);
            reveal_strlit("from");
            assert("from"@.len() == 4);
            reveal_strlit("pub");
            assert("pub"@.len() == 3);
            reveal_strlit("static");
            assert("static"@.len() == 6);
            reveal_strlit("fn");
            assert("fn"@.len() == 2);
            assert("fn"@[0] != "ok"@[0]);
        },
        Keyword::Let => {
            reveal_strlit("true");
            assert("true"@.len() == 4);
            reveal_strlit("false");
            assert("false"@.len() == 5);
            reveal_strlit("some");
            assert("some"@.len() == 4);
            reveal_strlit("none");
            assert("none"@.len() == 4);
            reveal_strlit("ok");
            assert("ok"@.len() == 2);
            reveal_strlit("err");
            assert("err"@.len() == 3);
            reveal_strlit("use");
            assert("use"@.len() == 3);
            reveal_strlit("from");
            assert("from"@.len() == 4);
            reveal_strlit("pub");
            assert("pub"@.len() == 3);
            reveal_strlit("static");
            assert("static"@.len() == 6);
            reveal_strlit("fn");
            assert("fn"@.len() == 2);
            reveal_strlit("let");
            assert("let"@.len() == 3);
            assert("let"@[0] != "err"@[0]);
            assert("let"@[0] != "use"@[0]);
            assert("let"@[0] != "pub"@[0]);
        },
        Keyword::Const => {
            reveal_strlit("true");
            assert("true"@.len() == 4);
            reveal_strlit("false");
            assert("false"@.len() == 5);
            reveal_strlit("some");
            assert("some"@.len() == 4);
            reveal_strlit("none");
            assert("none"@.len() == 4);
            reveal_strlit("ok");
            assert("ok"@.len() == 2);
            reveal_strlit("err");
            assert("err"@.len() == 3);
            reveal_strlit("use");
            assert("use"@.len() == 3);
            reveal_strlit("from");
            assert("from"@.len() == 4);
            reveal_strlit("pub");
            assert("pub"@.len() == 3);
            reveal_strlit("static");
            assert("static"@.len() == 6);
            reveal_strlit("fn");
            assert("fn"@.len() == 2);
            reveal_strlit("let");
            assert("let"@.len() == 3);
            reveal_strlit("const");
            assert("const"@.len() == 5);
            assert("const"@[0] != "false"@[0]);
        },
        Keyword::Mut => {},
        Keyword::Struct => {
            reveal_strlit("true");
            assert("true"@.len() == 4);
            reveal_strlit("false");
            assert("false"@.len() == 5);
            reveal_strlit("some");
            assert("some"@.len() == 4);
            reveal_strlit("none");
            assert("none"@.len() == 4);
            reveal_strlit("ok");
            assert("ok"@.len() == 2);
            reveal_strlit("err");
            assert("err"@.len() == 3);
            reveal_strlit("use");
            assert("use"@.len() == 3);
            reveal_strlit("from");
            assert("from"@.len() == 4);
            reveal_strlit("pub");
            assert("pub"@.len() == 3);
            reveal_strlit("static");
            assert("static"@.len() == 6);
            reveal_strlit("fn");
            assert("fn"@.len() == 2);
            reveal_strlit("let");
            assert("let"@.len() == 3);
            reveal_strlit("const");
            assert("const"@.len() == 5);
            reveal_strlit("struct");
            assert("struct"@.len() == 6);
            assert("struct"@[2] != "static"@[2]);
        },
        Keyword::Contract => {
            reveal_strlit("true");
            assert("true"@.len() == 4);
            reveal_strlit("false");
            assert("false"@.len() == 5);
            reveal_strlit("some");
            assert("some"@.len() == 4);
            reveal_strlit("none");
            assert("none"@.len() == 4);
            reveal_strlit("ok");
            assert("ok"@.len() == 2);
            reveal_strlit("err");
            assert("err"@.len() == 3);
            reveal_strlit("use");
            assert("use"@.len() == 3);
            reveal_strlit("from");
            assert("from"@.len() == 4);
            reveal_strlit("pub");
            assert("pub"@.len() == 3);
            reveal_strlit("static");
            assert("static"@.len() == 6);
            reveal_strlit("fn");
            assert("fn"@.len() == 2);
            reveal_strlit("let");
            assert("let"@.len() == 3);
            reveal_strlit("const");
            assert("const"@.len() == 5);
            reveal_strlit("struct");
            assert("struct"@.len() == 6);
            reveal_strlit("contract");
            assert("contract"@.len() == 8);
        },
        Keyword::Enum => {
            reveal_strlit("true");
            assert("true"@.len() == 4);
            reveal_strlit("false");
            assert("false"@.len() == 5);
            reveal_strlit("some");
            assert("some"@.len() == 4);
            reveal_strlit("none");
            assert("none"@.len() == 4);
            reveal_strlit("ok");
            assert("ok"@.len() == 2);
            reveal_strlit("err");
            assert("err"@.len() == 3);
            reveal_strlit("use");
            assert("use"@.len() == 3);
            reveal_strlit("from");
            assert("from"@.len() == 4);
            reveal_strlit("pub");
            assert("pub"@.len() == 3);
            reveal_strlit("static");
            assert("static"@.len() == 6);
            reveal_strlit("fn");
            assert("fn"@.len() == 2);
            reveal_strlit("let");
            assert("let"@.len() == 3);
            reveal_strlit("const");
            assert("const"@.len() == 5);
            reveal_strlit("struct");
            assert("struct"@.len() == 6);
            reveal_strlit("contract");
            assert("contract"@.len() == 8);
            reveal_strlit("enum");
            assert("enum"@.len() == 4);
            assert("enum"@[0] != "true"@[0]);
            assert("enum"@[0] != "some"@[0]);
            assert("enum"@[0] != "none"@[0]);
            assert("enum"@[0] != "from"@[0]);
        },
        Keyword::Type => {
            reveal_strlit("true");
            assert("true"@.len() == 4);
            reveal_strlit("false");
            assert("false"@.len() == 5);
            reveal_strlit("some");
            assert("some"@.len() == 4);
            reveal_strlit("none");
            assert("none"@.len() == 4);
            reveal_strlit("ok");
            assert("ok"@.len() == 2);
            reveal_strlit("err");
            assert("err"@.len() == 3);
            reveal_strlit("use");
            assert("use"@.len() == 3);
            reveal_strlit("from");
            assert("from"@.len() == 4);
            reveal_strlit("pub");
            assert("pub"@.len() == 3);
            reveal_strlit("static");
            assert("static"@.len() == 6);
            reveal_strlit("fn");
            assert("fn"@.len() == 2);
            reveal_strlit("let");
            assert("let"@.len() == 3);
            reveal_strlit("const");
            assert("const"@.len() == 5);
            reveal_strlit("struct");
            assert("struct"@.len() == 6);
            reveal_strlit("contract");
            assert("contract"@.len() == 8);
            reveal_strlit("enum");
            assert("enum"@.len() == 4);
            reveal_strlit("type");
            assert("type"@.len() == 4);
            assert("type"@[1] != "true"@[1]);
            assert("type"@[0] != "some"@[0]);
            assert("type"@[0] != "none"@[0]);
            assert("type"@[0] != "from"@[0]);
            assert("type"@[0] != "enum"@[0]);
        },
        Keyword::Alias => {
            reveal_strlit("true");
            assert("true"@.len() == 4);
            reveal_strlit("false");
            assert("false"@.len() == 5);
            reveal_strlit("some");
            assert("some"@.len() == 4);
            reveal_strlit("none");
            assert("none"@.len() == 4);
            reveal_strlit("ok");
            assert("ok"@.len() == 2);
            reveal_strlit("err");
            assert("err"@.len() == 3);
            reveal_strlit("use");
            assert("use"@.len() == 3);
            reveal_strlit("from");
            assert("from"@.len() == 4);
            reveal_strlit("pub");
            assert("pub"@.len() == 3);
            reveal_strlit("static");
            assert("static"@.len() == 6);
            reveal_strlit("fn");
            assert("fn"@.len() == 2);
            reveal_strlit("let");
            assert("let"@.len() == 3);
            reveal_strlit("const");
            assert("const"@.len() == 5);
            reveal_strlit("struct");
            assert("struct"@.len() == 6);
            reveal_strlit("contract");
            assert("contract"@.len() == 8);
            reveal_strlit("enum");
            assert("enum"@.len() == 4);
            reveal_strlit("type");
            assert("type"@.len() == 4);
            reveal_strlit("alias");
            assert("alias"@.len() == 5);
            assert("alias"@[0] != "false"@[0]);
            assert("alias"@[0] != "const"@[0]);
        },
        Keyword::Errors => {
            reveal_strlit("true");
            assert("true"@.len() == 4);
            reveal_strlit("false");
            assert("false"@.len() == 5);
            reveal_strlit("some");
            assert("some"@.len() == 4);
            reveal_strlit("none");
            assert("none"@.len() == 4);
            reveal_strlit("ok");
            assert("ok"@.len() == 2);
            reveal_strlit("err");
            assert("err"@.len() == 3);
            reveal_strlit("use");
            assert("use"@.len() == 3);
            reveal_strlit("from");
            assert("from"@.len() == 4);
            reveal_strlit("pub");
            assert("pub"@.len() == 3);
            reveal_strlit("static");
            assert("static"@.len() == 6);
            reveal_strlit("fn");
            assert("fn"@.len() == 2);
            reveal_strlit("let");
            assert("let"@.len() == 3);
            reveal_strlit("const");
            assert("const"@.len() == 5);
            reveal_strlit("struct");
            assert("struct"@.len() == 6);
            reveal_strlit("contract");
            assert("contract"@.len() == 8);
            reveal_strlit("enum");
            assert("enum"@.len() == 4);
            reveal_strlit("type");
            assert("type"@.len() == 4);
            reveal_strlit("alias");
            assert("alias"@.len() == 5);
            reveal_strlit("errors");
            assert("errors"@.len() == 6);
            assert("errors"@[0] != "static"@[0]);
            assert("errors"@[0] != "struct"@[0]);
        },
        Keyword::Self_ => {
            reveal_strlit("true");
            assert("true"@.len() == 4);
            reveal_strlit("false");
            assert("false"@.len() == 5);
            reveal_strlit("some");
            assert("some"@.len() == 4);
            reveal_strlit("none");
            assert("none"@.len() == 4);
            reveal_strlit("ok");
            assert("ok"@.len() == 2);
            reveal_strlit("err");
            assert("err"@.len() == 3);
            reveal_strlit("use");
            assert("use"@.len() == 3);
            reveal_strlit("from");
            assert("from"@.len() == 4);
            reveal_strlit("pub");
            assert("pub"@.len() == 3);
            reveal_strlit("static");
            assert("static"@.len() == 6);
            reveal_strlit("fn");
            assert("fn"@.len() == 2);
            reveal_strlit("let");
            assert("let"@.len() == 3);
            reveal_strlit("const");
            assert("const"@.len() == 5);
            reveal_strlit("struct");
            assert("struct"@.len() == 6);
            reveal_strlit("contract");
            assert("contract"@.len() == 8);
            reveal_strlit("enum");
            assert("enum"@.len() == 4);
            reveal_strlit("type");
            assert("type"@.len() == 4);
            reveal_strlit("alias");
            assert("alias"@.len() == 5);
            reveal_strlit("errors");
            assert("errors"@.len() == 6);
            reveal_strlit("self");
            assert("self"@.len() == 4);
            assert("self"@[0] != "true"@[0]);
            assert("self"@[1] != "some"@[1]);
            assert("self"@[0] != "none"@[0]);
            assert("self"@[0] != "from"@[0]);
            assert("self"@[0] != "enum"@[0]);
            assert("self"@[0] != "type"@[0]);
        },
        Keyword::Construct => {
            reveal_strlit("true");
            assert("true"@.len() == 4);
            reveal_strlit("false");
            assert("false"@.len() == 5);
            reveal_strlit("some");
            assert("some"@.len() == 4);
            reveal_strlit("none");
            assert("none"@.len() == 4);
            reveal_strlit("ok");
            assert("ok"@.len() == 2);
            reveal_strlit("err");
            assert("err"@.len() == 3);
            reveal_strlit("use");
            assert("use"@.len() == 3);
            reveal_strlit("from");
            assert("from"@.len() == 4);
            reveal_strlit("pub");
            assert("pub"@.len() == 3);
            reveal_strlit("static");
            assert("static"@.len() == 6);
            reveal_strlit("fn");
            assert("fn"@.len() == 2);
            reveal_strlit("let");
            assert("let"@.len() == 3);
            reveal_strlit("const");
            assert("const"@.len() == 5);
            reveal_strlit("struct");
            assert("struct"@.len() == 6);
            reveal_strlit("contract");
            assert("contract"@.len() == 8);
            reveal_strlit("enum");
            assert("enum"@.len() == 4);
            reveal_strlit("type");
            assert("type"@.len() == 4);
            reveal_strlit("alias");
            assert("alias"@.len() == 5);
            reveal_strlit("errors");
            assert("errors"@.len() == 6);
            reveal_strlit("self");
            assert("self"@.len() == 4);
            reveal_strlit("construct");
            assert("construct"@.len() == 9);
        },
        Keyword::Impl => {
            reveal_strlit("true");
            assert("true"@.len() == 4);
            reveal_strlit("false");
            assert("false"@.len() == 5);
            reveal_strlit("some");
            assert("some"@.len() == 4);
            reveal_strlit("none");
            assert("none"@.len() == 4);
            reveal_strlit("ok");
            assert("ok"@.len() == 2);
            reveal_strlit("err");
            assert("err"@.len() == 3);
            reveal_strlit("use");
            assert("use"@.len() == 3);
            reveal_strlit("from");
            assert("from"@.len() == 4);
            reveal_strlit("pub");
            assert("pub"@.len() == 3);
            reveal_strlit("static");
            assert("static"@.len() == 6);
            reveal_strlit("fn");
            assert("fn"@.len() == 2);
            reveal_strlit("let");
            assert("let"@.len() == 3);
            reveal_strlit("const");
            assert("const"@.len() == 5);
            reveal_strlit("struct");
            assert("struct"@.len() == 6);
            reveal_strlit("contract");
            assert("contract"@.len() == 8);
            reveal_strlit("enum");
            assert("enum"@.len() == 4);
            reveal_strlit("type");
            assert("type"@.len() == 4);
            reveal_strlit("alias");
            assert("alias"@.len() == 5);
            reveal_strlit("errors");
            assert("errors"@.len() == 6);
            reveal_strlit("self");
            assert("self"@.len() == 4);
            reveal_strlit("construct");
            assert("construct"@.len() == 9);
            reveal_strlit("impl");
            assert("impl"@.len() == 4);
            assert("impl"@[0] != "true"@[0]);
            assert("impl"@[0] != "some"@[0]);
            assert("impl"@[0] != "none"@[0]);
            assert("impl"@[0] != "from"@[0]);
            assert("impl"@[0] != "enum"@[0]);
            assert("impl"@[0] != "type"@[0]);
            assert("impl"@[0] != "self"@[0]);
        },
        Keyword::Return => {
            reveal_strlit("true");
            assert("true"@.len() == 4);
            reveal_strlit("false");
            assert("false"@.len() == 5);
            reveal_strlit("some");
            assert("some"@.len() == 4);
            reveal_strlit("none");
            assert("none"@.len() == 4);
            reveal_strlit("ok");
            assert("ok"@.len() == 2);
            reveal_strlit("err");
            assert("err"@.len() == 3);
            reveal_strlit("use");
            assert("use"@.len() == 3);
            reveal_strlit("from");
            assert("from"@.len() == 4);
            reveal_strlit("pub");
            assert("pub"@.len() == 3);
            reveal_strlit("static");
            assert("static"@.len() == 6);
            reveal_strlit("fn");
            assert("fn"@.len() == 2);
            reveal_strlit("let");
            assert("let"@.len() == 3);
            reveal_strlit("const");
            assert("const"@.len() == 5);
            reveal_strlit("struct");
            assert("struct"@.len() == 6);
            reveal_strlit("contract");
            assert("contract"@.len() == 8);
            reveal_strlit("enum");
            assert("enum"@.len() == 4);
            reveal_strlit("type");
            assert("type"@.len() == 4);
            reveal_strlit("alias");
            assert("alias"@.len() == 5);
            reveal_strlit("errors");
            assert("errors"@.len() == 6);
            reveal_strlit("self");
            assert("self"@.len() == 4);
            reveal_strlit("construct");
            assert("construct"@.len() == 9);
            reveal_strlit("impl");
            assert("impl"@.len() == 4);
            reveal_strlit("return");
            assert("return"@.len() == 6);
            assert("return"@[0] != "static"@[0]);
            assert("return"@[0] != "struct"@[0]);
            assert("return"@[0] != "errors"@[0]);
        },
        Keyword::Yield => {
            reveal_strlit("true");
            assert("true"@.len() == 4);
            reveal_strlit("false");
            assert("false"@.len() == 5);
            reveal_strlit("some");
            assert("some"@.len() == 4);
            reveal_strlit("none");
            assert("none"@.len() == 4);
            reveal_strlit("ok");
            assert("ok"@.len() == 2);
            reveal_strlit("err");
            assert("err"@.len() == 3);
            reveal_strlit("use");
            assert("use"@.len() == 3);
            reveal_strlit("from");
            assert("from"@.len() == 4);
            reveal_strlit("pub");
            assert("pub"@.len() == 3);
            reveal_strlit("static");
            assert("static"@.len() == 6);
            reveal_strlit("fn");
            assert("fn"@.len() == 2);
            reveal_strlit("let");
            assert("let"@.len() == 3);
            reveal_strlit("const");
            assert("const"@.len() == 5);
            reveal_strlit("struct");
            assert("struct"@.len() == 6);
            reveal_strlit("contract");
            assert("contract"@.len() == 8);
            reveal_strlit("enum");
            assert("enum"@.len() == 4);
            reveal_strlit("type");
            assert("type"@.len() == 4);
            reveal_strlit("alias");
            assert("alias"@.len() == 5);
            reveal_strlit("errors");
            assert("errors"@.len() == 6);
            reveal_strlit("self");
            assert("self"@.len() == 4);
            reveal_strlit("construct");
            assert("construct"@.len() == 9);
            reveal_strlit("impl");
            assert("impl"@.len() == 4);
            reveal_strlit("return");
            assert("return"@.len() == 6);
            reveal_strlit("yield");
            assert("yield"@.len() == 5);
            assert("yield"@[0] != "false"@[0]);
            assert("yield"@[0] != "const"@[0]);
            assert("yield"@[0] != "alias"@[0]);
        },
        Keyword::If => {
            reveal_strlit("true");
            assert("true"@.len() == 4);
            reveal_strlit("false");
            assert("false"@.len() == 5);
            reveal_strlit("some");
            assert("some"@.len() == 4);
            reveal_strlit("none");
            assert("none"@.len() == 4);
            reveal_strlit("ok");
            assert("ok"@.len() == 2);
            reveal_strlit("err");
            assert("err"@.len() == 3);
            reveal_strlit("use");
            assert("use"@.len() == 3);
            reveal_strlit("from");
            assert("from"@.len() == 4);
            reveal_strlit("pub");
            assert("pub"@.len() == 3);
            reveal_strlit("static");
            assert("static"@.len() == 6);
            reveal_strlit("fn");
            assert("fn"@.len() == 2);
            reveal_strlit("let");
            assert("let"@.len() == 3);
            reveal_strlit("const");
            assert("const"@.len() == 5);
            reveal_strlit("struct");
            assert("struct"@.len() == 6);
            reveal_strlit("contract");
            assert("contract"@.len() == 8);
            reveal_strlit("enum");
            assert("enum"@.len() == 4);
            reveal_strlit("type");
            assert("type"@.len() == 4);
            reveal_strlit("alias");
            assert("alias"@.len() == 5);
            reveal_strlit("errors");
            assert("errors"@.len() == 6);
            reveal_strlit("self");
            assert("self"@.len() == 4);
            reveal_strlit("construct");
            assert("construct"@.len() == 9);
            reveal_strlit("impl");
            assert("impl"@.len() == 4);
            reveal_strlit("return");
            assert("return"@.len() == 6);
            reveal_strlit("yield");
            assert("yield"@.len() == 5);
            reveal_strlit("if");
            assert("if"@.len() == 2);
            assert("if"@[0] != "ok"@[0]);
            assert("if"@[0] != "fn"@[0]);
        },
        Keyword::Not => {
            reveal_strlit("true");
            assert("true"@.len() == 4);
            reveal_strlit("false");
            assert("false"@.len() == 5);
            reveal_strlit("some");
            assert("some"@.len() == 4);
            reveal_strlit("none");
            assert("none"@.len() == 4);
            reveal_strlit("ok");
            assert("ok"@.len() == 2);
            reveal_strlit("err");
            assert("err"@.len() == 3);
            reveal_strlit("use");
            assert("use"@.len() == 3);
            reveal_strlit("from");
            assert("from"@.len() == 4);
            reveal_strlit("pub");
            assert("pub"@.len() == 3);
            reveal_strlit("static");
            assert("static"@.len() == 6);
            reveal_strlit("fn");
            assert("fn"@.len() == 2);
            reveal_strlit("let");
            assert("let"@.len() == 3);
            reveal_strlit("const");
            assert("const"@.len() == 5);
            reveal_strlit("struct");
            assert("struct"@.len() == 6);
            reveal_strlit("contract");
            assert("contract"@.len() == 8);
            reveal_strlit("enum");
            assert("enum"@.len() == 4);
            reveal_strlit("type");
            assert("type"@.len() == 4);
            reveal_strlit("alias");
            assert("alias"@.len() == 5);
            reveal_strlit("errors");
            assert("errors"@.len() == 6);
            reveal_strlit("self");
            assert("self"@.len() == 4);
            reveal_strlit("construct");
            assert("construct"@.len() == 9);
            reveal_strlit("impl");
            assert("impl"@.len() == 4);
            reveal_strlit("return");
            assert("return"@.len() == 6);
            reveal_strlit("yield");
            assert("yield"@.len() == 5);
            reveal_strlit("if");
            assert("if"@.len() == 2);
            reveal_strlit("not");
            assert("not"@.len() == 3);
            assert("not"@[0] != "err"@[0]);
            assert("not"@[0] != "use"@[0]);
            assert("not"@[0] != "pub"@[0]);
            assert("not"@[0] != "let"@[0]);
        },
        Keyword::Or => {
            reveal_strlit("true");
            assert("true"@.len() == 4);
            reveal_strlit("false");
            assert("false"@.len() == 5);
            reveal_strlit("some");
            assert("some"@.len() == 4);
            reveal_strlit("none");
            assert("none"@.len() == 4);
            reveal_strlit("ok");
            assert("ok"@.len() == 2);
            reveal_strlit("err");
            assert("err"@.len() == 3);
            reveal_strlit("use");
            assert("use"@.len() == 3);
            reveal_strlit("from");
            assert("from"@.len() == 4);
            reveal_strlit("pub");
            assert("pub"@.len() == 3);
            reveal_strlit("static");
            assert("static"@.len() == 6);
            reveal_strlit("fn");
            assert("fn"@.len() == 2);
            reveal_strlit("let");
            assert("let"@.len() == 3);
            reveal_strlit("const");
            assert("const"@.len() == 5);
            reveal_strlit("struct");
            assert("struct"@.len() == 6);
            reveal_strlit("contract");
            assert("contract"@.len() == 8);
            reveal_strlit("enum");
            assert("enum"@.len() == 4);
            reveal_strlit("type");
            assert("type"@.len() == 4);
            reveal_strlit("alias");
            assert("alias"@.len() == 5);
            reveal_strlit("errors");
            assert("errors"@.len() == 6);
            reveal_strlit("self");
            assert("self"@.len() == 4);
            reveal_strlit("construct");
            assert("construct"@.len() == 9);
            reveal_strlit("impl");
            assert("impl"@.len() == 4);
            reveal_strlit("return");
            assert("return"@.len() == 6);
            reveal_strlit("yield");
            assert("yield"@.len() == 5);
            reveal_strlit("if");
            assert("if"@.len() == 2);
            reveal_strlit("not");
            assert("not"@.len() == 3);
            reveal_strlit("or");
            assert("or"@.len() == 2);
            assert("or"@[1] != "ok"@[1]);
            assert("or"@[0] != "fn"@[0]);
            assert("or"@[0] != "if"@[0]);
        },
        Keyword::And => {
            reveal_strlit("true");
            assert("true"@.len() == 4);
            reveal_strlit("false");
            assert("false"@.len() == 5);
            reveal_strlit("some");
            assert("some"@.len() == 4);
            reveal_strlit("none");
            assert("none"@.len() == 4);
            reveal_strlit("ok");
            assert("ok"@.len() == 2);
            reveal_strlit("err");
            assert("err"@.len() == 3);
            reveal_strlit("use");
            assert("use"@.len() == 3);
            reveal_strlit("from");
            assert("from"@.len() == 4);
            reveal_strlit("pub");
            assert("pub"@.len() == 3);
            reveal_strlit("static");
            assert("static"@.len() == 6);
            reveal_strlit("fn");
            assert("fn"@.len() == 2);
            reveal_strlit("let");
            assert("let"@.len() == 3);
            reveal_strlit("const");
            assert("const"@.len() == 5);
            reveal_strlit("struct");
            assert("struct"@.len() == 6);
            reveal_strlit("contract");
            assert("contract"@.len() == 8);
            reveal_strlit("enum");
            assert("enum"@.len() == 4);
            reveal_strlit("type");
            assert("type"@.len() == 4);
            reveal_strlit("alias");
            assert("alias"@.len() == 5);
            reveal_strlit("errors");
            assert("errors"@.len() == 6);
            reveal_strlit("self");
            assert("self"@.len() == 4);
            reveal_strlit("construct");
            assert("construct"@.len() == 9);
            reveal_strlit("impl");
            assert("impl"@.len() == 4);
            reveal_strlit("return");
            assert("return"@.len() == 6);
            reveal_strlit("yield");
            assert("yield"@.len() == 5);
            reveal_strlit("if");
            assert("if"@.len() == 2);
            reveal_strlit("not");
            assert("not"@.len() == 3);
            reveal_strlit("or");
            assert("or"@.len() == 2);
            reveal_strlit("and");
            assert("and"@.len() == 3);
            assert("and"@[0] != "err"@[0]);
            assert("and"@[0] != "use"@[0]);
            assert("and"@[0] != "pub"@[0]);
            assert("and"@[0] != "let"@[0]);
            assert("and"@[0] != "not"@[0]);
        },
        Keyword::Else => {
            reveal_strlit("true");
            assert("true"@.len() == 4);
            reveal_strlit("false");
            assert("false"@.len() == 5);
            reveal_strlit("some");
            assert("some"@.len() == 4);
            reveal_strlit("none");
            assert("none"@.len() == 4);
            reveal_strlit("ok");
            assert("ok"@.len() == 2);
            reveal_strlit("err");
            assert("err"@.len() == 3);
            reveal_strlit("use");
            assert("use"@.len() == 3);
            reveal_strlit("from");
            assert("from"@.len() == 4);
            reveal_strlit("pub");
            assert("pub"@.len() == 3);
            reveal_strlit("static");
            assert("static"@.len() == 6);
            reveal_strlit("fn");
            assert("fn"@.len() == 2);
            reveal_strlit("let");
            assert("let"@.len() == 3);
            reveal_strlit("const");
            assert("const"@.len() == 5);
            reveal_strlit("struct");
            assert("struct"@.len() == 6);
            reveal_strlit("contract");
            assert("contract"@.len() == 8);
            reveal_strlit("enum");
            assert("enum"@.len() == 4);
            reveal_strlit("type");
            assert("type"@.len() == 4);
            reveal_strlit("alias");
            assert("alias"@.len() == 5);
            reveal_strlit("errors");
            assert("errors"@.len() == 6);
            reveal_strlit("self");
            assert("self"@.len() == 4);
            reveal_strlit("construct");
            assert("construct"@.len() == 9);
            reveal_strlit("impl");
            assert("impl"@.len() == 4);
            reveal_strlit("return");
            assert("return"@.len() == 6);
            reveal_strlit("yield");
            assert("yield"@.len() == 5);
            reveal_strlit("if");
            assert("if"@.len() == 2);
            reveal_strlit("not");
            assert("not"@.len() == 3);
            reveal_strlit("or");
            assert("or"@.len() == 2);
            reveal_strlit("and");
            assert("and"@.len() == 3);
            reveal_strlit("else");
            assert("else"@.len() == 4);
            assert("else"@[0] != "true"@[0]);
            assert("else"@[0] != "some"@[0]);
            assert("else"@[0] != "none"@[0]);
            assert("else"@[0] != "from"@[0]);
            assert("else"@[1] != "enum"@[1]);
            assert("else"@[0] != "type"@[0]);
            assert("else"@[0] != "self"@[0]);
            assert("else"@[0] != "impl"@[0]);
        },
        Keyword::Match => {
            reveal_strlit("true");
            assert("true"@.len() == 4);
            reveal_strlit("false");
            assert("false"@.len() == 5);
            reveal_strlit("some");
            assert("some"@.len() == 4);
            reveal_strlit("none");
            assert("none"@.len() == 4);
            reveal_strlit("ok");
            assert("ok"@.len() == 2);
            reveal_strlit("err");
            assert("err"@.len() == 3);
            reveal_strlit("use");
            assert("use"@.len() == 3);
            reveal_strlit("from");
            assert("from"@.len() == 4);
            reveal_strlit("pub");
            assert("pub"@.len() == 3);
            reveal_strlit("static");
            assert("static"@.len() == 6);
            reveal_strlit("fn");
            assert("fn"@.len() == 2);
            reveal_strlit("let");
            assert("let"@.len() == 3);
            reveal_strlit("const");
            assert("const"@.len() == 5);
            reveal_strlit("struct");
            assert("struct"@.len() == 6);
            reveal_strlit("contract");
            assert("contract"@.len() == 8);
            reveal_strlit("enum");
            assert("enum"@.len() == 4);
            reveal_strlit("type");
            assert("type"@.len() == 4);
            reveal_strlit("alias");
            assert("alias"@.len() == 5);
            reveal_strlit("errors");
            assert("errors"@.len() == 6);
            reveal_strlit("self");
            assert("self"@.len() == 4);
            reveal_strlit("construct");
            assert("construct"@.len() == 9);
            reveal_strlit("impl");
            assert("impl"@.len() == 4);
            reveal_strlit("return");
            assert("return"@.len() == 6);
            reveal_strlit("yield");
            assert("yield"@.len() == 5);
            reveal_strlit("if");
            assert("if"@.len() == 2);
            reveal_strlit("not");
            assert("not"@.len() == 3);
            reveal_strlit("or");
            assert("or"@.len() == 2);
            reveal_strlit("and");
            assert("and"@.len() == 3);
            reveal_strlit("else");
            assert("else"@.len() == 4);
            reveal_strlit("match");
            assert("match"@.len() == 5);
            assert("match"@[0] != "false"@[0]);
            assert("match"@[0] != "const"@[0]);
            assert("match"@[0] != "alias"@[0]);
            assert("match"@[0] != "yield"@[0]);
        },
        Keyword::Is => {
            reveal_strlit("true");
            assert("true"@.len() == 4);
            reveal_strlit("false");
            assert("false"@.len() == 5);
            reveal_strlit("some");
            assert("some"@.len() == 4);
            reveal_strlit("none");
            assert("none"@.len() == 4);
            reveal_strlit("ok");
            assert("ok"@.len() == 2);
            reveal_strlit("err");
            assert("err"@.len() == 3);
            reveal_strlit("use");
            assert("use"@.len() == 3);
            reveal_strlit("from");
            assert("from"@.len() == 4);
            reveal_strlit("pub");
            assert("pub"@.len() == 3);
            reveal_strlit("static");
            assert("static"@.len() == 6);
            reveal_strlit("fn");
            assert("fn"@.len() == 2);
            reveal_strlit("let");
            assert("let"@.len() == 3);
            reveal_strlit("const");
            assert("const"@.len() == 5);
            reveal_strlit("struct");
            assert("struct"@.len() == 6);
            reveal_strlit("contract");
            assert("contract"@.len() == 8);
            reveal_strlit("enum");
            assert("enum"@.len() == 4);
            reveal_strlit("type");
            assert("type"@.len() == 4);
            reveal_strlit("alias");
            assert("alias"@.len() == 5);
            reveal_strlit("errors");
            assert("errors"@.len() == 6);
            reveal_strlit("self");
            assert("self"@.len() == 4);
            reveal_strlit("construct");
            assert("construct"@.len() == 9);
            reveal_strlit("impl");
            assert("impl"@.len() == 4);
            reveal_strlit("return");
            assert("return"@.len() == 6);
            reveal_strlit("yield");
            assert("yield"@.len() == 5);
            reveal_strlit("if");
            assert("if"@.len() == 2);
            reveal_strlit("not");
            assert("not"@.len() == 3);
            reveal_strlit("or");
            assert("or"@.len() == 2);
            reveal_strlit("and");
            assert("and"@.len() == 3);
            reveal_strlit("else");
            assert("else"@.len() == 4);
            reveal_strlit("match");
            assert("match"@.len() == 5);
            reveal_strlit("is");
            assert("is"@.len() == 2);
            assert("is"@[0] != "ok"@[0]);
            assert("is"@[0] != "fn"@[0]);
            assert("is"@[1] != "if"@[1]);
            assert("is"@[0] != "or"@[0]);
        },
        Keyword::Loop => {
            reveal_strlit("true");
            assert("true"@.len() == 4);
            reveal_strlit("false");
            assert("false"@.len() == 5);
            reveal_strlit("some");
            assert("some"@.len() == 4);
            reveal_strlit("none");
            assert("none"@.len() == 4);
            reveal_strlit("ok");
            assert("ok"@.len() == 2);
            reveal_strlit("err");
            assert("err"@.len() == 3);
            reveal_strlit("use");
            assert("use"@.len() == 3);
            reveal_strlit("from");
            assert("from"@.len() == 4);
            reveal_strlit("pub");
            assert("pub"@.len() == 3);
            reveal_strlit("static");
            assert("static"@.len() == 6);
            reveal_strlit("fn");
            assert("fn"@.len() == 2);
            reveal_strlit("let");
            assert("let"@.len() == 3);
            reveal_strlit("const");
            assert("const"@.len() == 5);
            reveal_strlit("struct");
            assert("struct"@.len() == 6);
            reveal_strlit("contract");
            assert("contract"@.len() == 8);
            reveal_strlit("enum");
            assert("enum"@.len() == 4);
            reveal_strlit("type");
            assert("type"@.len() == 4);
            reveal_strlit("alias");
            assert("alias"@.len() == 5);
            reveal_strlit("errors");
            assert("errors"@.len() == 6);
            reveal_strlit("self");
            assert("self"@.len() == 4);
            reveal_strlit("construct");
            assert("construct"@.len() == 9);
            reveal_strlit("impl");
            assert("impl"@.len() == 4);
            reveal_strlit("return");
            assert("return"@.len() == 6);
            reveal_strlit("yield");
            assert("yield"@.len() == 5);
            reveal_strlit("if");
            assert("if"@.len() == 2);
            reveal_strlit("not");
            assert("not"@.len() == 3);
            reveal_strlit("or");
            assert("or"@.len() == 2);
            reveal_strlit("and");
            assert("and"@.len() == 3);
            reveal_strlit("else");
            assert("else"@.len() == 4);
            reveal_strlit("match");
            assert("match"@.len() == 5);
            reveal_strlit("is");
            assert("is"@.len() == 2);
            reveal_strlit("loop");
            assert("loop"@.len() == 4);
            assert("loop"@[0] != "true"@[0]);
            assert("loop"@[0] != "some"@[0]);
            assert("loop"@[0] != "none"@[0]);
            assert("loop"@[0] != "from"@[0]);
            assert("loop"@[0] != "enum"@[0]);
            assert("loop"@[0] != "type"@[0]);
            assert("loop"@[0] != "self"@[0]);
            assert("loop"@[0] != "impl"@[0]);
            assert("loop"@[0] != "else"@[0]);
        },
        Keyword::While => {
            reveal_strlit("true");
            assert("true"@.len() == 4);
            reveal_strlit("false");
            assert("false"@.len() == 5);
            reveal_strlit("some");
            assert("some"@.len() == 4);
            reveal_strlit("none");
            assert("none"@.len() == 4);
            reveal_strlit("ok");
            assert("ok"@.len() == 2);
            reveal_strlit("err");
            assert("err"@.len() == 3);
            reveal_strlit("use");
            assert("use"@.len() == 3);
            reveal_strlit("from");
            assert("from"@.len() == 4);
            reveal_strlit("pub");
            assert("pub"@.len() == 3);
            reveal_strlit("static");
            assert("static"@.len() == 6);
            reveal_strlit("fn");
            assert("fn"@.len() == 2);
            reveal_strlit("let");
            assert("let"@.len() == 3);
            reveal_strlit("const");
            assert("const"@.len() == 5);
            reveal_strlit("struct");
            assert("struct"@.len() == 6);
            reveal_strlit("contract");
            assert("contract"@.len() == 8);
            reveal_strlit("enum");
            assert("enum"@.len() == 4);
            reveal_strlit("type");
            assert("type"@.len() == 4);
            reveal_strlit("alias");
            assert("alias"@.len() == 5);
            reveal_strlit("errors");
            assert("errors"@.len() == 6);
            reveal_strlit("self");
            assert("self"@.len() == 4);
            reveal_strlit("construct");
            assert("construct"@.len() == 9);
            reveal_strlit("impl");
            assert("impl"@.len() == 4);
            reveal_strlit("return");
            assert("return"@.len() == 6);
            reveal_strlit("yield");
            assert("yield"@.len() == 5);
            reveal_strlit("if");
            assert("if"@.len() == 2);
            reveal_strlit("not");
            assert("not"@.len() == 3);
            reveal_strlit("or");
            assert("or"@.len() == 2);
            reveal_strlit("and");
            assert("and"@.len() == 3);
            reveal_strlit("else");
            assert("else"@.len() == 4);
            reveal_strlit("match");
            assert("match"@.len() == 5);
            reveal_strlit("is");
            assert("is"@.len() == 2);
            reveal_strlit("loop");
            assert("loop"@.len() == 4);
            reveal_strlit("while");
            assert("while"@.len() == 5);
            assert("while"@[0] != "false"@[0]);
            assert("while"@[0] != "const"@[0]);
            assert("while"@[0] != "alias"@[0]);
            assert("while"@[0] != "yield"@[0]);
            assert("while"@[0] != "match"@[0]);
        },
        Keyword::For => {
            reveal_strlit("true");
            assert("true"@.len() == 4);
            reveal_strlit("false");
            assert("false"@.len() == 5);
            reveal_strlit("some");
            assert("some"@.len() == 4);
            reveal_strlit("none");
            assert("none"@.len() == 4);
            reveal_strlit("ok");
            assert("ok"@.len() == 2);
            reveal_strlit("err");
            assert("err"@.len() == 3);
            reveal_strlit("use");
            assert("use"@.len() == 3);
            reveal_strlit("from");
            assert("from"@.len() == 4);
            reveal_strlit("pub");
            assert("pub"@.len() == 3);
            reveal_strlit("static");
            assert("static"@.len() == 6);
            reveal_strlit("fn");
            assert("fn"@.len() == 2);
            reveal_strlit("let");
            assert("let"@.len() == 3);
            reveal_strlit("const");
            assert("const"@.len() == 5);
            reveal_strlit("struct");
            assert("struct"@.len() == 6);
            reveal_strlit("contract");
            assert("contract"@.len() == 8);
            reveal_strlit("enum");
            assert("enum"@.len() == 4);
            reveal_strlit("type");
            assert("type"@.len() == 4);
            reveal_strlit("alias");
            assert("alias"@.len() == 5);
            reveal_strlit("errors");
            assert("errors"@.len() == 6);
            reveal_strlit("self");
            assert("self"@.len() == 4);
            reveal_strlit("construct");
            assert("construct"@.len() == 9);
            reveal_strlit("impl");
            assert("impl"@.len() == 4);
            reveal_strlit("return");
            assert("return"@.len() == 6);
            reveal_strlit("yield");
            assert("yield"@.len() == 5);
            reveal_strlit("if");
            assert("if"@.len() == 2);
            reveal_strlit("not");
            assert("not"@.len() == 3);
            reveal_strlit("or");
            assert("or"@.len() == 2);
            reveal_strlit("and");
            assert("and"@.len() == 3);
            reveal_strlit("else");
            assert("else"@.len() == 4);
            reveal_strlit("match");
            assert("match"@.len() == 5);
            reveal_strlit("is");
            assert("is"@.len() == 2);
            reveal_strlit("loop");
            assert("loop"@.len() == 4);
            reveal_strlit("while");
            assert("while"@.len() == 5);
            reveal_strlit("for");
            assert("for"@.len() == 3);
            assert("for"@[0] != "err"@[0]);
            assert("for"@[0] != "use"@[0]);
            assert("for"@[0] != "pub"@[0]);
            assert("for"@[0] != "let"@[0]);
            assert("for"@[0] != "not"@[0]);
            assert("for"@[0] != "and"@[0]);
        },
        Keyword::In => {
            reveal_strlit("true");
            assert("true"@.len() == 4);
            reveal_strlit("false");
            assert("false"@.len() == 5);
            reveal_strlit("some");
            assert("some"@.len() == 4);
            reveal_strlit("none");
            assert("none"@.len() == 4);
            reveal_strlit("ok");
            assert("ok"@.len() == 2);
            reveal_strlit("err");
            assert("err"@.len() == 3);
            reveal_strlit("use");
            assert("use"@.len() == 3);
            reveal_strlit("from");
            assert("from"@.len() == 4);
            reveal_strlit("pub");
            assert("pub"@.len() == 3);
            reveal_strlit("static");
            assert("static"@.len() == 6);
            reveal_strlit("fn");
            assert("fn"@.len() == 2);
            reveal_strlit("let");
            assert("let"@.len() == 3);
            reveal_strlit("const");
            assert("const"@.len() == 5);
            reveal_strlit("struct");
            assert("struct"@.len() == 6);
            reveal_strlit("contract");
            assert("contract"@.len() == 8);
            reveal_strlit("enum");
            assert("enum"@.len() == 4);
            reveal_strlit("type");
            assert("type"@.len() == 4);
            reveal_strlit("alias");
            assert("alias"@.len() == 5);
            reveal_strlit("errors");
            assert("errors"@.len() == 6);
            reveal_strlit("self");
            assert("self"@.len() == 4);
            reveal_strlit("construct");
            assert("construct"@.len() == 9);
            reveal_strlit("impl");
            assert("impl"@.len() == 4);
            reveal_strlit("return");
            assert("return"@.len() == 6);
            reveal_strlit("yield");
            assert("yield"@.len() == 5);
            reveal_strlit("if");
            assert("if"@.len() == 2);
            reveal_strlit("not");
            assert("not"@.len() == 3);
            reveal_strlit("or");
            assert("or"@.len() == 2);
            reveal_strlit("and");
            assert("and"@.len() == 3);
            reveal_strlit("else");
            assert("else"@.len() == 4);
            reveal_strlit("match");
            assert("match"@.len() == 5);
            reveal_strlit("is");
            assert("is"@.len() == 2);
            reveal_strlit("loop");
            assert("loop"@.len() == 4);
            reveal_strlit("while");
            assert("while"@.len() == 5);
            reveal_strlit("for");
            assert("for"@.len() == 3);
            reveal_strlit("in");
            assert("in"@.len() == 2);
            assert("in"@[0] != "ok"@[0]);
            assert("in"@[0] != "fn"@[0]);
            assert("in"@[1] != "if"@[1]);
            assert("in"@[0] != "or"@[0]);
            assert("in"@[1] != "is"@[1]);
        },
        Keyword::Safe => {
            reveal_strlit("true");
            assert("true"@.len() == 4);
            reveal_strlit("false");
            assert("false"@.len() == 5);
            reveal_strlit("some");
            assert("some"@.len() == 4);
            reveal_strlit("none");
            assert("none"@.len() == 4);
            reveal_strlit("ok");
            assert("ok"@.len() == 2);
            reveal_strlit("err");
            assert("err"@.len() == 3);
            reveal_strlit("use");
            assert("use"@.len() == 3);
            reveal_strlit("from");
            assert("from"@.len() == 4);
            reveal_strlit("pub");
            assert("pub"@.len() == 3);
            reveal_strlit("static");
            assert("static"@.len() == 6);
            reveal_strlit("fn");
            assert("fn"@.len() == 2);
            reveal_strlit("let");
            assert("let"@.len() == 3);
            reveal_strlit("const");
            assert("const"@.len() == 5);
            reveal_strlit("struct");
            assert("struct"@.len() == 6);
            reveal_strlit("contract");
            assert("contract"@.len() == 8);
            reveal_strlit("enum");
            assert("enum"@.len() == 4);
            reveal_strlit("type");
            assert("type"@.len() == 4);
            reveal_strlit("alias");
            assert("alias"@.len() == 5);
            reveal_strlit("errors");
            assert("errors"@.len() == 6);
            reveal_strlit("self");
            assert("self"@.len() == 4);
            reveal_strlit("construct");
            assert("construct"@.len() == 9);
            reveal_strlit("impl");
            assert("impl"@.len() == 4);
            reveal_strlit("return");
            assert("return"@.len() == 6);
            reveal_strlit("yield");
            assert("yield"@.len() == 5);
            reveal_strlit("if");
            assert("if"@.len() == 2);
            reveal_strlit("not");
            assert("not"@.len() == 3);
            reveal_strlit("or");
            assert("or"@.len() == 2);
            reveal_strlit("and");
            assert("and"@.len() == 3);
            reveal_strlit("else");
            assert("else"@.len() == 4);
            reveal_strlit("match");
            assert("match"@.len() == 5);
            reveal_strlit("is");
            assert("is"@.len() == 2);
            reveal_strlit("loop");
            assert("loop"@.len() == 4);
            reveal_strlit("while");
            assert("while"@.len() == 5);
            reveal_strlit("for");
            assert("for"@.len() == 3);
            reveal_strlit("in");
            assert("in"@.len() == 2);
            reveal_strlit("safe");
            assert("safe"@.len() == 4);
            assert("safe"@[0] != "true"@[0]);
            assert("safe"@[1] != "some"@[1]);
            assert("safe"@[0] != "none"@[0]);
            assert("safe"@[0] != "from"@[0]);
            assert("safe"@[0] != "enum"@[0]);
            assert("safe"@[0] != "type"@[0]);
            assert("safe"@[1] != "self"@[1]);
            assert("safe"@[0] != "impl"@[0]);
            assert("safe"@[0] != "else"@[0]);
            assert("safe"@[0] != "loop"@[0]);
        },
        Keyword::Async => {
            reveal_strlit("true");
            assert("true"@.len() == 4);
            reveal_strlit("false");
            assert("false"@.len() == 5);
            reveal_strlit("some");
            assert("some"@.len() == 4);
            reveal_strlit("none");
            assert("none"@.len() == 4);
            reveal_strlit("ok");
            assert("ok"@.len() == 2);
            reveal_strlit("err");
            assert("err"@.len() == 3);
            reveal_strlit("use");
            assert("use"@.len() == 3);
            reveal_strlit("from");
            assert("from"@.len() == 4);
            reveal_strlit("pub");
            assert("pub"@.len() == 3);
            reveal_strlit("static");
            assert("static"@.len() == 6);
            reveal_strlit("fn");
            assert("fn"@.len() == 2);
            reveal_strlit("let");
            assert("let"@.len() == 3);
            reveal_strlit("const");
            assert("const"@.len() == 5);
            reveal_strlit("struct");
            assert("struct"@.len() == 6);
            reveal_strlit("contract");
            assert("contract"@.len() == 8);
            reveal_strlit("enum");
            assert("enum"@.len() == 4);
            reveal_strlit("type");
            assert("type"@.len() == 4);
            reveal_strlit("alias");
            assert("alias"@.len() == 5);
            reveal_strlit("errors");
            assert("errors"@.len() == 6);
            reveal_strlit("self");
            assert("self"@.len() == 4);
            reveal_strlit("construct");
            assert("construct"@.len() == 9);
            reveal_strlit("impl");
            assert("impl"@.len() == 4);
            reveal_strlit("return");
            assert("return"@.len() == 6);
            reveal_strlit("yield");
            assert("yield"@.len() == 5);
            reveal_strlit("if");
            assert("if"@.len() == 2);
            reveal_strlit("not");
            assert("not"@.len() == 3);
            reveal_strlit("or");
            assert("or"@.len() == 2);
            reveal_strlit("and");
            assert("and"@.len() == 3);
            reveal_strlit("else");
            assert("else"@.len() == 4);
            reveal_strlit("match");
            assert("match"@.len() == 5);
            reveal_strlit("is");
            assert("is"@.len() == 2);
            reveal_strlit("loop");
            assert("loop"@.len() == 4);
            reveal_strlit("while");
            assert("while"@.len() == 5);
            reveal_strlit("for");
            assert("for"@.len() == 3);
            reveal_strlit("in");
            assert("in"@.len() == 2);
            reveal_strlit("safe");
            assert("safe"@.len() == 4);
            reveal_strlit("async");
            assert("async"@.len() == 5);
            assert("async"@[0] != "false"@[0]);
            assert("async"@[0] != "const"@[0]);
            assert("async"@[1] != "alias"@[1]);
            assert("async"@[0] != "yield"@[0]);
            assert("async"@[0] != "match"@[0]);
            assert("async"@[0] != "while"@[0]);
        },
        Keyword::Await => {
            reveal_strlit("true");
            assert("true"@.len() == 4);
            reveal_strlit("false");
            assert("false"@.len() == 5);
            reveal_strlit("some");
            assert("some"@.len() == 4);
            reveal_strlit("none");
            assert("none"@.len() == 4);
            reveal_strlit("ok");
            assert("ok"@.len() == 2);
            reveal_strlit("err");
            assert("err"@.len() == 3);
            reveal_strlit("use");
            assert("use"@.len() == 3);
            reveal_strlit("from");
            assert("from"@.len() == 4);
            reveal_strlit("pub");
            assert("pub"@.len() == 3);
            reveal_strlit("static");
            assert("static"@.len() == 6);
            reveal_strlit("fn");
            assert("fn"@.len() == 2);
            reveal_strlit("let");
            assert("let"@.len() == 3);
            reveal_strlit("const");
            assert("const"@.len() == 5);
            reveal_strlit("struct");
            assert("struct"@.len() == 6);
            reveal_strlit("contract");
            assert("contract"@.len() == 8);
            reveal_strlit("enum");
            assert("enum"@.len() == 4);
            reveal_strlit("type");
            assert("type"@.len() == 4);
            reveal_strlit("alias");
            assert("alias"@.len() == 5);
            reveal_strlit("errors");
            assert("errors"@.len() == 6);
            reveal_strlit("self");
            assert("self"@.len() == 4);
            reveal_strlit("construct");
            assert("construct"@.len() == 9);
            reveal_strlit("impl");
            assert("impl"@.len() == 4);
            reveal_strlit("return");
            assert("return"@.len() == 6);
            reveal_strlit("yield");
            assert("yield"@.len() == 5);
            reveal_strlit("if");
            assert("if"@.len() == 2);
            reveal_strlit("not");
            assert("not"@.len() == 3);
            reveal_strlit("or");
            assert("or"@.len() == 2);
            reveal_strlit("and");
            assert("and"@.len() == 3);
            reveal_strlit("else");
            assert("else"@.len() == 4);
            reveal_strlit("match");
            assert("match"@.len() == 5);
            reveal_strlit("is");
            assert("is"@.len() == 2);
            reveal_strlit("loop");
            assert("loop"@.len() == 4);
            reveal_strlit("while");
            assert("while"@.len() == 5);
            reveal_strlit("for");
            assert("for"@.len() == 3);
            reveal_strlit("in");
            assert("in"@.len() == 2);
            reveal_strlit("safe");
            assert("safe"@.len() == 4);
            reveal_strlit("async");
            assert("async"@.len() == 5);
            reveal_strlit("await");
            assert("await"@.len() == 5);
            assert("await"@[0] != "false"@[0]);
            assert("await"@[0] != "const"@[0]);
            assert("await"@[1] != "alias"@[1]);
            assert("await"@[0] != "yield"@[0]);
            assert("await"@[0] != "match"@[0]);
            assert("await"@[0] != "while"@[0]);
            assert("await"@[1] != "async"@[1]);
        },
    }
}

/// Every primitive type name lexes to its primitive type.
pub proof fn lemma_primitive_names(p: Primitive)
    ensures
        word_kind(primitive_text(p)) == TokenType::Primitive(p),
{
    match p {
        Primitive::Bool => {
            reveal_strlit("true");
            assert("true"@.len() == 4);
            reveal_strlit("false");
            assert("false"@.len() == 5);
            reveal_strlit("some");
            assert("some"@.len() == 4);
            reveal_strlit("none");
            assert("none"@.len() == 4);
            reveal_strlit("ok");
            assert("ok"@.len() == 2);
            reveal_strlit("err");
            assert("err"@.len() == 3);
            reveal_strlit("use");
            assert("use"@.len() == 3);
            reveal_strlit("from");
            assert("from"@.len() == 4);
            reveal_strlit("pub");
            assert("pub"@.len() == 3);
            reveal_strlit("static");
            assert("static"@.len() == 6);
            reveal_strlit("fn");
            assert("fn"@.len() == 2);
            reveal_strlit("let");
            assert("let"@.len() == 3);
            reveal_strlit("const");
            assert("const"@.len() == 5);
            reveal_strlit("struct");
            assert("struct"@.len() == 6);
            reveal_strlit("contract");
            assert("contract"@.len() == 8);
            reveal_strlit("enum");
            assert("enum"@.len() == 4);
            reveal_strlit("type");
            assert("type"@.len() == 4);
            reveal_strlit("alias");
            assert("alias"@.len() == 5);
            reveal_strlit("errors");
            assert("errors"@.len() == 6);
            reveal_strlit("self");
            assert("self"@.len() == 4);
            reveal_strlit("construct");
            assert("construct"@.len() == 9);
            reveal_strlit("impl");
            assert("impl"@.len() == 4);
            reveal_strlit("return");
            assert("return"@.len() == 6);
            reveal_strlit("yield");
            assert("yield"@.len() == 5);
            reveal_strlit("if");
            assert("if"@.len() == 2);
            reveal_strlit("not");
            assert("not"@.len() == 3);
            reveal_strlit("or");
            assert("or"@.len() == 2);
            reveal_strlit("and");
            assert("and"@.len() == 3);
            reveal_strlit("else");
            assert("else"@.len() == 4);
            reveal_strlit("match");
            assert("match"@.len() == 5);
            reveal_strlit("is");
            assert("is"@.len() == 2);
            reveal_strlit("loop");
            assert("loop"@.len() == 4);
            reveal_strlit("while");
            assert("while"@.len() == 5);
            reveal_strlit("for");
            assert("for"@.len() == 3);
            reveal_strlit("in");
            assert("in"@.len() == 2);
            reveal_strlit("safe");
            assert("safe"@.len() == 4);
            reveal_strlit("async");
            assert("async"@.len() == 5);
            reveal_strlit("await");
            assert("await"@.len() == 5);
            reveal_strlit("bool");
            assert("bool"@.len() == 4);
            assert("bool"@[0] != "true"@[0]);
            assert("bool"@[0] != "some"@[0]);
            assert("bool"@[0] != "none"@[0]);
            assert("bool"@[0] != "from"@[0]);
            assert("bool"@[0] != "enum"@[0]);
            assert("bool"@[0] != "type"@[0]);
            assert("bool"@[0] != "self"@[0]);
            assert("bool"@[0] != "impl"@[0]);
            assert("bool"@[0] != "else"@[0]);
            assert("bool"@[0] != "loop"@[0]);
            assert("bool"@[0] != "safe"@[0]);
        },
        Primitive::Bit => {
            reveal_strlit("true");
            assert("true"@.len() == 4);
            reveal_strlit("false");
            assert("false"@.len() == 5);
            reveal_strlit("some");
            assert("some"@.len() == 4);
            reveal_strlit("none");
            assert("none"@.len() == 4);
            reveal_strlit("ok");
            assert("ok"@.len() == 2);
            reveal_strlit("err");
            assert("err"@.len() == 3);
            reveal_strlit("use");
            assert("use"@.len() == 3);
            reveal_strlit("from");
            assert("from"@.len() == 4);
            reveal_strlit("pub");
            assert("pub"@.len() == 3);
            reveal_strlit("static");
            assert("static"@.len() == 6);
            reveal_strlit("fn");
            assert("fn"@.len() == 2);
            reveal_strlit("let");
            assert("let"@.len() == 3);
            reveal_strlit("const");
            assert("const"@.len() == 5);
            reveal_strlit("struct");
            assert("struct"@.len() == 6);
            reveal_strlit("contract");
            assert("contract"@.len() == 8);
            reveal_strlit("enum");
            assert("enum"@.len() == 4);
            reveal_strlit("type");
            assert("type"@.len() == 4);
            reveal_strlit("alias");
            assert("alias"@.len() == 5);
            reveal_strlit("errors");
            assert("errors"@.len() == 6);
            reveal_strlit("self");
            assert("self"@.len() == 4);
            reveal_strlit("construct");
            assert("construct"@.len() == 9);
            reveal_strlit("impl");
            assert("impl"@.len() == 4);
            reveal_strlit("return");
            assert("return"@.len() == 6);
            reveal_strlit("yield");
            assert("yield"@.len() == 5);
            reveal_strlit("if");
            assert("if"@.len() == 2);
            reveal_strlit("not");
            assert("not"@.len() == 3);
            reveal_strlit("or");
            assert("or"@.len() == 2);
            reveal_strlit("and");
            assert("and"@.len() == 3);
            reveal_strlit("else");
            assert("else"@.len() == 4);
            reveal_strlit("match");
            assert("match"@.len() == 5);
            reveal_strlit("is");
            assert("is"@.len() == 2);
            reveal_strlit("loop");
            assert("loop"@.len() == 4);
            reveal_strlit("while");
            assert("while"@.len() == 5);
            reveal_strlit("for");
            assert("for"@.len() == 3);
            reveal_strlit("in");
            assert("in"@.len() == 2);
            reveal_strlit("safe");
            assert("safe"@.len() == 4);
            reveal_strlit("async");
            assert("async"@.len() == 5);
            reveal_strlit("await");
            assert("await"@.len() == 5);
            reveal_strlit("bool");
            assert("bool"@.len() == 4);
            reveal_strlit("bit");
            assert("bit"@.len() == 3);
            assert("bit"@[0] != "err"@[0]);
            assert("bit"@[0] != "use"@[0]);
            assert("bit"@[0] != "pub"@[0]);
            assert("bit"@[0] != "let"@[0]);
            assert("bit"@[0] != "not"@[0]);
            assert("bit"@[0] != "and"@[0]);
            assert("bit"@[0] != "for"@[0]);
        },
        Primitive::Byte => {
            reveal_strlit("true");
            assert("true"@.len() == 4);
            reveal_strlit("false");
            assert("false"@.len() == 5);
            reveal_strlit("some");
            assert("some"@.len() == 4);
            reveal_strlit("none");
            assert("none"@.len() == 4);
            reveal_strlit("ok");
            assert("ok"@.len() == 2);
            reveal_strlit("err");
            assert("err"@.len() == 3);
            reveal_strlit("use");
            assert("use"@.len() == 3);
            reveal_strlit("from");
            assert("from"@.len() == 4);
            reveal_strlit("pub");
            assert("pub"@.len() == 3);
            reveal_strlit("static");
            assert("static"@.len() == 6);
            reveal_strlit("fn");
            assert("fn"@.len() == 2);
            reveal_strlit("let");
            assert("let"@.len() == 3);
            reveal_strlit("const");
            assert("const"@.len() == 5);
            reveal_strlit("struct");
            assert("struct"@.len() == 6);
            reveal_strlit("contract");
            assert("contract"@.len() == 8);
            reveal_strlit("enum");
            assert("enum"@.len() == 4);
            reveal_strlit("type");
            assert("type"@.len() == 4);
            reveal_strlit("alias");
            assert("alias"@.len() == 5);
            reveal_strlit("errors");
            assert("errors"@.len() == 6);
            reveal_strlit("self");
            assert("self"@.len() == 4);
            reveal_strlit("construct");
            assert("construct"@.len() == 9);
            reveal_strlit("impl");
            assert("impl"@.len() == 4);
            reveal_strlit("return");
            assert("return"@.len() == 6);
            reveal_strlit("yield");
            assert("yield"@.len() == 5);
            reveal_strlit("if");
            assert("if"@.len() == 2);
            reveal_strlit("not");
            assert("not"@.len() == 3);
            reveal_strlit("or");
            assert("or"@.len() == 2);
            reveal_strlit("and");
            assert("and"@.len() == 3);
            reveal_strlit("else");
            assert("else"@.len() == 4);
            reveal_strlit("match");
            assert("match"@.len() == 5);
            reveal_strlit("is");
            assert("is"@.len() == 2);
            reveal_strlit("loop");
            assert("loop"@.len() == 4);
            reveal_strlit("while");
            assert("while"@.len() == 5);
            reveal_strlit("for");
            assert("for"@.len() == 3);
            reveal_strlit("in");
            assert("in"@.len() == 2);
            reveal_strlit("safe");
            assert("safe"@.len() == 4);
            reveal_strlit("async");
            assert("async"@.len() == 5);
            reveal_strlit("await");
            assert("await"@.len() == 5);
            reveal_strlit("bool");
            assert("bool"@.len() == 4);
            reveal_strlit("bit");
            assert("bit"@.len() == 3);
            reveal_strlit("byte");
            assert("byte"@.len() == 4);
            assert("byte"@[0] != "true"@[0]);
            assert("byte"@[0] != "some"@[0]);
            assert("byte"@[0] != "none"@[0]);
            assert("byte"@[0] != "from"@[0]);
            assert("byte"@[0] != "enum"@[0]);
            assert("byte"@[0] != "type"@[0]);
            assert("byte"@[0] != "self"@[0]);
            assert("byte"@[0] != "impl"@[0]);
            assert("byte"@[0] != "else"@[0]);
            assert("byte"@[0] != "loop"@[0]);
            assert("byte"@[0] != "safe"@[0]);
            assert("byte"@[1] != "bool"@[1]);
        },
        Primitive::Uint => {
            reveal_strlit("true");
            assert("true"@.len() == 4);
            reveal_strlit("false");
            assert("false"@.len() == 5);
            reveal_strlit("some");
            assert("some"@.len() == 4);
            reveal_strlit("none");
            assert("none"@.len() == 4);
            reveal_strlit("ok");
            assert("ok"@.len() == 2);
            reveal_strlit("err");
            assert("err"@.len() == 3);
            reveal_strlit("use");
            assert("use"@.len() == 3);
            reveal_strlit("from");
            assert("from"@.len() == 4);
            reveal_strlit("pub");
            assert("pub"@.len() == 3);
            reveal_strlit("static");
            assert("static"@.len() == 6);
            reveal_strlit("fn");
            assert("fn"@.len() == 2);
            reveal_strlit("let");
            assert("let"@.len() == 3);
            reveal_strlit("const");
            assert("const"@.len() == 5);
            reveal_strlit("struct");
            assert("struct"@.len() == 6);
            reveal_strlit("contract");
            assert("contract"@.len() == 8);
            reveal_strlit("enum");
            assert("enum"@.len() == 4);
            reveal_strlit("type");
            assert("type"@.len() == 4);
            reveal_strlit("alias");
            assert("alias"@.len() == 5);
            reveal_strlit("errors");
            assert("errors"@.len() == 6);
            reveal_strlit("self");
            assert("self"@.len() == 4);
            reveal_strlit("construct");
            assert("construct"@.len() == 9);
            reveal_strlit("impl");
            assert("impl"@.len() == 4);
            reveal_strlit("return");
            assert("return"@.len() == 6);
            reveal_strlit("yield");
            assert("yield"@.len() == 5);
            reveal_strlit("if");
            assert("if"@.len() == 2);
            reveal_strlit("not");
            assert("not"@.len() == 3);
            reveal_strlit("or");
            assert("or"@.len() == 2);
            reveal_strlit("and");
            assert("and"@.len() == 3);
            reveal_strlit("else");
            assert("else"@.len() == 4);
            reveal_strlit("match");
            assert("match"@.len() == 5);
            reveal_strlit("is");
            assert("is"@.len() == 2);
            reveal_strlit("loop");
            assert("loop"@.len() == 4);
            reveal_strlit("while");
            assert("while"@.len() == 5);
            reveal_strlit("for");
            assert("for"@.len() == 3);
            reveal_strlit("in");
            assert("in"@.len() == 2);
            reveal_strlit("safe");
            assert("safe"@.len() == 4);
            reveal_strlit("async");
            assert("async"@.len() == 5);
            reveal_strlit("await");
            assert("await"@.len() == 5);
            reveal_strlit("bool");
            assert("bool"@.len() == 4);
            reveal_strlit("bit");
            assert("bit"@.len() == 3);
            reveal_strlit("byte");
            assert("byte"@.len() == 4);
            reveal_strlit("uint");
            assert("uint"@.len() == 4);
            assert("uint"@[0] != "true"@[0]);
            assert("uint"@[0] != "some"@[0]);
            assert("uint"@[0] != "none"@[0]);
            assert("uint"@[0] != "from"@[0]);
            assert("uint"@[0] != "enum"@[0]);
            assert("uint"@[0] != "type"@[0]);
            assert("uint"@[0] != "self"@[0]);
            assert("uint"@[0] != "impl"@[0]);
            assert("uint"@[0] != "else"@[0]);
            assert("uint"@[0] != "loop"@[0]);
            assert("uint"@[0] != "safe"@[0]);
            assert("uint"@[0] != "bool"@[0]);
            assert("uint"@[0] != "byte"@[0]);
        },
        Primitive::Uint8 => {
            reveal_strlit("true");
            assert("true"@.len() == 4);
            reveal_strlit("false");
            assert("false"@.len() == 5);
            reveal_strlit("some");
            assert("some"@.len() == 4);
            reveal_strlit("none");
            assert("none"@.len() == 4);
            reveal_strlit("ok");
            assert("ok"@.len() == 2);
            reveal_strlit("err");
            assert("err"@.len() == 3);
            reveal_strlit("use");
            assert("use"@.len() == 3);
            reveal_strlit("from");
            assert("from"@.len() == 4);
            reveal_strlit("pub");
            assert("pub"@.len() == 3);
            reveal_strlit("static");
            assert("static"@.len() == 6);
            reveal_strlit("fn");
            assert("fn"@.len() == 2);
            reveal_strlit("let");
            assert("let"@.len() == 3);
            reveal_strlit("const");
            assert("const"@.len() == 5);
            reveal_strlit("struct");
            assert("struct"@.len() == 6);
            reveal_strlit("contract");
            assert("contract"@.len() == 8);
            reveal_strlit("enum");
            assert("enum"@.len() == 4);
            reveal_strlit("type");
            assert("type"@.len() == 4);
            reveal_strlit("alias");
            assert("alias"@.len() == 5);
            reveal_strlit("errors");
            assert("errors"@.len() == 6);
            reveal_strlit("self");
            assert("self"@.len() == 4);
            reveal_strlit("construct");
            assert("construct"@.len() == 9);
            reveal_strlit("impl");
            assert("impl"@.len() == 4);
            reveal_strlit("return");
            assert("return"@.len() == 6);
            reveal_strlit("yield");
            assert("yield"@.len() == 5);
            reveal_strlit("if");
            assert("if"@.len() == 2);
            reveal_strlit("not");
            assert("not"@.len() == 3);
            reveal_strlit("or");
            assert("or"@.len() == 2);
            reveal_strlit("and");
            assert("and"@.len() == 3);
            reveal_strlit("else");
            assert("else"@.len() == 4);
            reveal_strlit("match");
            assert("match"@.len() == 5);
            reveal_strlit("is");
            assert("is"@.len() == 2);
            reveal_strlit("loop");
            assert("loop"@.len() == 4);
            reveal_strlit("while");
            assert("while"@.len() == 5);
            reveal_strlit("for");
            assert("for"@.len() == 3);
            reveal_strlit("in");
            assert("in"@.len() == 2);
            reveal_strlit("safe");
            assert("safe"@.len() == 4);
            reveal_strlit("async");
            assert("async"@.len() == 5);
            reveal_strlit("await");
            assert("await"@.len() == 5);
            reveal_strlit("bool");
            assert("bool"@.len() == 4);
            reveal_strlit("bit");
            assert("bit"@.len() == 3);
            reveal_strlit("byte");
            assert("byte"@.len() == 4);
            reveal_strlit("uint");
            assert("uint"@.len() == 4);
            reveal_strlit("uint8");
            assert("uint8"@.len() == 5);
            assert("uint8"@[0] != "false"@[0]);
            assert("uint8"@[0] != "const"@[0]);
            assert("uint8"@[0] != "alias"@[0]);
            assert("uint8"@[0] != "yield"@[0]);
            assert("uint8"@[0] != "match"@[0]);
            assert("uint8"@[0] != "while"@[0]);
            assert("uint8"@[0] != "async"@[0]);
            assert("uint8"@[0] != "await"@[0]);
        },
        Primitive::Uint16 => {
            reveal_strlit("true");
            assert("true"@.len() == 4);
            reveal_strlit("false");
            assert("false"@.len() == 5);
            reveal_strlit("some");
            assert("some"@.len() == 4);
            reveal_strlit("none");
            assert("none"@.len() == 4);
            reveal_strlit("ok");
            assert("ok"@.len() == 2);
            reveal_strlit("err");
            assert("err"@.len() == 3);
            reveal_strlit("use");
            assert("use"@.len() == 3);
            reveal_strlit("from");
            assert("from"@.len() == 4);
            reveal_strlit("pub");
            assert("pub"@.len() == 3);
            reveal_strlit("static");
            assert("static"@.len() == 6);
            reveal_strlit("fn");
            assert("fn"@.len() == 2);
            reveal_strlit("let");
            assert("let"@.len() == 3);
            reveal_strlit("const");
            assert("const"@.len() == 5);
            reveal_strlit("struct");
            assert("struct"@.len() == 6);
            reveal_strlit("contract");
            assert("contract"@.len() == 8);
            reveal_strlit("enum");
            assert("enum"@.len() == 4);
            reveal_strlit("type");
            assert("type"@.len() == 4);
            reveal_strlit("alias");
            assert("alias"@.len() == 5);
            reveal_strlit("errors");
            assert("errors"@.len() == 6);
            reveal_strlit("self");
            assert("self"@.len() == 4);
            reveal_strlit("construct");
            assert("construct"@.len() == 9);
            reveal_strlit("impl");
            assert("impl"@.len() == 4);
            reveal_strlit("return");
            assert("return"@.len() == 6);
            reveal_strlit("yield");
            assert("yield"@.len() == 5);
            reveal_strlit("if");
            assert("if"@.len() == 2);
            reveal_strlit("not");
            assert("not"@.len() == 3);
            reveal_strlit("or");
            assert("or"@.len() == 2);
            reveal_strlit("and");
            assert("and"@.len() == 3);
            reveal_strlit("else");
            assert("else"@.len() == 4);
            reveal_strlit("match");
            assert("match"@.len() == 5);
            reveal_strlit("is");
            assert("is"@.len() == 2);
            reveal_strlit("loop");
            assert("loop"@.len() == 4);
            reveal_strlit("while");
            assert("while"@.len() == 5);
            reveal_strlit("for");
            assert("for"@.len() == 3);
            reveal_strlit("in");
            assert("in"@.len() == 2);
            reveal_strlit("safe");
            assert("safe"@.len() == 4);
            reveal_strlit("async");
            assert("async"@.len() == 5);
            reveal_strlit("await");
            assert("await"@.len() == 5);
            reveal_strlit("bool");
            assert("bool"@.len() == 4);
            reveal_strlit("bit");
            assert("bit"@.len() == 3);
            reveal_strlit("byte");
            assert("byte"@.len() == 4);
            reveal_strlit("uint");
            assert("uint"@.len() == 4);
            reveal_strlit("uint8");
            assert("uint8"@.len() == 5);
            reveal_strlit("uint16");
            assert("uint16"@.len() == 6);
            assert("uint16"@[0] != "static"@[0]);
            assert("uint16"@[0] != "struct"@[0]);
            assert("uint16"@[0] != "errors"@[0]);
            assert("uint16"@[0] != "return"@[0]);
        },
        Primitive::Uint32 => {
            reveal_strlit("true");
            assert("true"@.len() == 4);
            reveal_strlit("false");
            assert("false"@.len() == 5);
            reveal_strlit("some");
            assert("some"@.len() == 4);
            reveal_strlit("none");
            assert("none"@.len() == 4);
            reveal_strlit("ok");
            assert("ok"@.len() == 2);
            reveal_strlit("err");
            assert("err"@.len() == 3);
            reveal_strlit("use");
            assert("use"@.len() == 3);
            reveal_strlit("from");
            assert("from"@.len() == 4);
            reveal_strlit("pub");
            assert("pub"@.len() == 3);
            reveal_strlit("static");
            assert("static"@.len() == 6);
            reveal_strlit("fn");
            assert("fn"@.len() == 2);
            reveal_strlit("let");
            assert("let"@.len() == 3);
            reveal_strlit("const");
            assert("const"@.len() == 5);
            reveal_strlit("struct");
            assert("struct"@.len() == 6);
            reveal_strlit("contract");
            assert("contract"@.len() == 8);
            reveal_strlit("enum");
            assert("enum"@.len() == 4);
            reveal_strlit("type");
            assert("type"@.len() == 4);
            reveal_strlit("alias");
            assert("alias"@.len() == 5);
            reveal_strlit("errors");
            assert("errors"@.len() == 6);
            reveal_strlit("self");
            assert("self"@.len() == 4);
            reveal_strlit("construct");
            assert("construct"@.len() == 9);
            reveal_strlit("impl");
            assert("impl"@.len() == 4);
            reveal_strlit("return");
            assert("return"@.len() == 6);
            reveal_strlit("yield");
            assert("yield"@.len() == 5);
            reveal_strlit("if");
            assert("if"@.len() == 2);
            reveal_strlit("not");
            assert("not"@.len() == 3);
            reveal_strlit("or");
            assert("or"@.len() == 2);
            reveal_strlit("and");
            assert("and"@.len() == 3);
            reveal_strlit("else");
            assert("else"@.len() == 4);
            reveal_strlit("match");
            assert("match"@.len() == 5);
            reveal_strlit("is");
            assert("is"@.len() == 2);
            reveal_strlit("loop");
            assert("loop"@.len() == 4);
            reveal_strlit("while");
            assert("while"@.len() == 5);
            reveal_strlit("for");
            assert("for"@.len() == 3);
            reveal_strlit("in");
            assert("in"@.len() == 2);
            reveal_strlit("safe");
            assert("safe"@.len() == 4);
            reveal_strlit("async");
            assert("async"@.len() == 5);
            reveal_strlit("await");
            assert("await"@.len() == 5);
            reveal_strlit("bool");
            assert("bool"@.len() == 4);
            reveal_strlit("bit");
            assert("bit"@.len() == 3);
            reveal_strlit("byte");
            assert("byte"@.len() == 4);
            reveal_strlit("uint");
            assert("uint"@.len() == 4);
            reveal_strlit("uint8");
            assert("uint8"@.len() == 5);
            reveal_strlit("uint16");
            assert("uint16"@.len() == 6);
            reveal_strlit("uint32");
            assert("uint32"@.len() == 6);
            assert("uint32"@[0] != "static"@[0]);
            assert("uint32"@[0] != "struct"@[0]);
            assert("uint32"@[0] != "errors"@[0]);
            assert("uint32"@[0] != "return"@[0]);
            assert("uint32"@[4] != "uint16"@[4]);
        },
        Primitive::Uint64 => {
            reveal_strlit("true");
            assert("true"@.len() == 4);
            reveal_strlit("false");
            assert("false"@.len() == 5);
            reveal_strlit("some");
            assert("some"@.len() == 4);
            reveal_strlit("none");
            assert("none"@.len() == 4);
            reveal_strlit("ok");
            assert("ok"@.len() == 2);
            reveal_strlit("err");
            assert("err"@.len() == 3);
            reveal_strlit("use");
            assert("use"@.len() == 3);
            reveal_strlit("from");
            assert("from"@.len() == 4);
            reveal_strlit("pub");
            assert("pub"@.len() == 3);
            reveal_strlit("static");
            assert("static"@.len() == 6);
            reveal_strlit("fn");
            assert("fn"@.len() == 2);
            reveal_strlit("let");
            assert("let"@.len() == 3);
            reveal_strlit("const");
            assert("const"@.len() == 5);
            reveal_strlit("struct");
            assert("struct"@.len() == 6);
            reveal_strlit("contract");
            assert("contract"@.len() == 8);
            reveal_strlit("enum");
            assert("enum"@.len() == 4);
            reveal_strlit("type");
            assert("type"@.len() == 4);
            reveal_strlit("alias");
            assert("alias"@.len() == 5);
            reveal_strlit("errors");
            assert("errors"@.len() == 6);
            reveal_strlit("self");
            assert("self"@.len() == 4);
            reveal_strlit("construct");
            assert("construct"@.len() == 9);
            reveal_strlit("impl");
            assert("impl"@.len() == 4);
            reveal_strlit("return");
            assert("return"@.len() == 6);
            reveal_strlit("yield");
            assert("yield"@.len() == 5);
            reveal_strlit("if");
            assert("if"@.len() == 2);
            reveal_strlit("not");
            assert("not"@.len() == 3);
            reveal_strlit("or");
            assert("or"@.len() == 2);
            reveal_strlit("and");
            assert("and"@.len() == 3);
            reveal_strlit("else");
            assert("else"@.len() == 4);
            reveal_strlit("match");
            assert("match"@.len() == 5);
            reveal_strlit("is");
            assert("is"@.len() == 2);
            reveal_strlit("loop");
            assert("loop"@.len() == 4);
            reveal_strlit("while");
            assert("while"@.len() == 5);
            reveal_strlit("for");
            assert("for"@.len() == 3);
            reveal_strlit("in");
            assert("in"@.len() == 2);
            reveal_strlit("safe");
            assert("safe"@.len() == 4);
            reveal_strlit("async");
            assert("async"@.len() == 5);
            reveal_strlit("await");
            assert("await"@.len() == 5);
            reveal_strlit("bool");
            assert("bool"@.len() == 4);
            reveal_strlit("bit");
            assert("bit"@.len() == 3);
            reveal_strlit("byte");
            assert("byte"@.len() == 4);
            reveal_strlit("uint");
            assert("uint"@.len() == 4);
            reveal_strlit("uint8");
            assert("uint8"@.len() == 5);
            reveal_strlit("uint16");
            assert("uint16"@.len() == 6);
            reveal_strlit("uint32");
            assert("uint32"@.len() == 6);
            reveal_strlit("uint64");
            assert("uint64"@.len() == 6);
            assert("uint64"@[0] != "static"@[0]);
            assert("uint64"@[0] != "struct"@[0]);
            assert("uint64"@[0] != "errors"@[0]);
            assert("uint64"@[0] != "return"@[0]);
            assert("uint64"@[4] != "uint16"@[4]);
            assert("uint64"@[4] != "uint32"@[4]);
        },
        Primitive::Uint128 => {
            reveal_strlit("true");
            assert("true"@.len() == 4);
            reveal_strlit("false");
            assert("false"@.len() == 5);
            reveal_strlit("some");
            assert("some"@.len() == 4);
            reveal_strlit("none");
            assert("none"@.len() == 4);
            reveal_strlit("ok");
            assert("ok"@.len() == 2);
            reveal_strlit("err");
            assert("err"@.len() == 3);
            reveal_strlit("use");
            assert("use"@.len() == 3);
            reveal_strlit("from");
            assert("from"@.len() == 4);
            reveal_strlit("pub");
            assert("pub"@.len() == 3);
            reveal_strlit("static");
            assert("static"@.len() == 6);
            reveal_strlit("fn");
            assert("fn"@.len() == 2);
            reveal_strlit("let");
            assert("let"@.len() == 3);
            reveal_strlit("const");
            assert("const"@.len() == 5);
            reveal_strlit("struct");
            assert("struct"@.len() == 6);
            reveal_strlit("contract");
            assert("contract"@.len() == 8);
            reveal_strlit("enum");
            assert("enum"@.len() == 4);
            reveal_strlit("type");
            assert("type"@.len() == 4);
            reveal_strlit("alias");
            assert("alias"@.len() == 5);
            reveal_strlit("errors");
            assert("errors"@.len() == 6);
            reveal_strlit("self");
            assert("self"@.len() == 4);
            reveal_strlit("construct");
            assert("construct"@.len() == 9);
            reveal_strlit("impl");
            assert("impl"@.len() == 4);
            reveal_strlit("return");
            assert("return"@.len() == 6);
            reveal_strlit("yield");
            assert("yield"@.len() == 5);
            reveal_strlit("if");
            assert("if"@.len() == 2);
            reveal_strlit("not");
            assert("not"@.len() == 3);
            reveal_strlit("or");
            assert("or"@.len() == 2);
            reveal_strlit("and");
            assert("and"@.len() == 3);
            reveal_strlit("else");
            assert("else"@.len() == 4);
            reveal_strlit("match");
            assert("match"@.len() == 5);
            reveal_strlit("is");
            assert("is"@.len() == 2);
            reveal_strlit("loop");
            assert("loop"@.len() == 4);
            reveal_strlit("while");
            assert("while"@.len() == 5);
            reveal_strlit("for");
            assert("for"@.len() == 3);
            reveal_strlit("in");
            assert("in"@.len() == 2);
            reveal_strlit("safe");
            assert("safe"@.len() == 4);
            reveal_strlit("async");
            assert("async"@.len() == 5);
            reveal_strlit("await");
            assert("await"@.len() == 5);
            reveal_strlit("bool");
            assert("bool"@.len() == 4);
            reveal_strlit("bit");
            assert("bit"@.len() == 3);
            reveal_strlit("byte");
            assert("byte"@.len() == 4);
            reveal_strlit("uint");
            assert("uint"@.len() == 4);
            reveal_strlit("uint8");
            assert("uint8"@.len() == 5);
            reveal_strlit("uint16");
            assert("uint16"@.len() == 6);
            reveal_strlit("uint32");
            assert("uint32"@.len() == 6);
            reveal_strlit("uint64");
            assert("uint64"@.len() == 6);
            reveal_strlit("uint128");
            assert("uint128"@.len() == 7);
        },
        Primitive::BigUint => {
            reveal_strlit("true");
            assert("true"@.len() == 4);
            reveal_strlit("false");
            assert("false"@.len() == 5);
            reveal_strlit("some");
            assert("some"@.len() == 4);
            reveal_strlit("none");
            assert("none"@.len() == 4);
            reveal_strlit("ok");
            assert("ok"@.len() == 2);
            reveal_strlit("err");
            assert("err"@.len() == 3);
            reveal_strlit("use");
            assert("use"@.len() == 3);
            reveal_strlit("from");
            assert("from"@.len() == 4);
            reveal_strlit("pub");
            assert("pub"@.len() == 3);
            reveal_strlit("static");
            assert("static"@.len() == 6);
            reveal_strlit("fn");
            assert("fn"@.len() == 2);
            reveal_strlit("let");
            assert("let"@.len() == 3);
            reveal_strlit("const");
            assert("const"@.len() == 5);
            reveal_strlit("struct");
            assert("struct"@.len() == 6);
            reveal_strlit("contract");
            assert("contract"@.len() == 8);
            reveal_strlit("enum");
            assert("enum"@.len() == 4);
            reveal_strlit("type");
            assert("type"@.len() == 4);
            reveal_strlit("alias");
            assert("alias"@.len() == 5);
            reveal_strlit("errors");
            assert("errors"@.len() == 6);
            reveal_strlit("self");
            assert("self"@.len() == 4);
            reveal_strlit("construct");
            assert("construct"@.len() == 9);
            reveal_strlit("impl");
            assert("impl"@.len() == 4);
            reveal_strlit("return");
            assert("return"@.len() == 6);
            reveal_strlit("yield");
            assert("yield"@.len() == 5);
            reveal_strlit("if");
            assert("if"@.len() == 2);
            reveal_strlit("not");
            assert("not"@.len() == 3);
            reveal_strlit("or");
            assert("or"@.len() == 2);
            reveal_strlit("and");
            assert("and"@.len() == 3);
            reveal_strlit("else");
            assert("else"@.len() == 4);
            reveal_strlit("match");
            assert("match"@.len() == 5);
            reveal_strlit("is");
            assert("is"@.len() == 2);
            reveal_strlit("loop");
            assert("loop"@.len() == 4);
            reveal_strlit("while");
            assert("while"@.len() == 5);
            reveal_strlit("for");
            assert("for"@.len() == 3);
            reveal_strlit("in");
            assert("in"@.len() == 2);
            reveal_strlit("safe");
            assert("safe"@.len() == 4);
            reveal_strlit("async");
            assert("async"@.len() == 5);
            reveal_strlit("await");
            assert("await"@.len() == 5);
            reveal_strlit("bool");
            assert("bool"@.len() == 4);
            reveal_strlit("bit");
            assert("bit"@.len() == 3);
            reveal_strlit("byte");
            assert("byte"@.len() == 4);
            reveal_strlit("uint");
            assert("uint"@.len() == 4);
            reveal_strlit("uint8");
            assert("uint8"@.len() == 5);
            reveal_strlit("uint16");
            assert("uint16"@.len() == 6);
            reveal_strlit("uint32");
            assert("uint32"@.len() == 6);
            reveal_strlit("uint64");
            assert("uint64"@.len() == 6);
            reveal_strlit("uint128");
            assert("uint128"@.len() == 7);
            reveal_strlit("biguint");
            assert("biguint"@.len() == 7);
            assert("biguint"@[0] != "uint128"@[0]);
        },
        Primitive::Int => {
            reveal_strlit("true");
            assert("true"@.len() == 4);
            reveal_strlit("false");
            assert("false"@.len() == 5);
            reveal_strlit("some");
            assert("some"@.len() == 4);
            reveal_strlit("none");
            assert("none"@.len() == 4);
            reveal_strlit("ok");
            assert("ok"@.len() == 2);
            reveal_strlit("err");
            assert("err"@.len() == 3);
            reveal_strlit("use");
            assert("use"@.len() == 3);
            reveal_strlit("from");
            assert("from"@.len() == 4);
            reveal_strlit("pub");
            assert("pub"@.len() == 3);
            reveal_strlit("static");
            assert("static"@.len() == 6);
            reveal_strlit("fn");
            assert("fn"@.len() == 2);
            reveal_strlit("let");
            assert("let"@.len() == 3);
            reveal_strlit("const");
            assert("const"@.len() == 5);
            reveal_strlit("struct");
            assert("struct"@.len() == 6);
            reveal_strlit("contract");
            assert("contract"@.len() == 8);
            reveal_strlit("enum");
            assert("enum"@.len() == 4);
            reveal_strlit("type");
            assert("type"@.len() == 4);
            reveal_strlit("alias");
            assert("alias"@.len() == 5);
            reveal_strlit("errors");
            assert("errors"@.len() == 6);
            reveal_strlit("self");
            assert("self"@.len() == 4);
            reveal_strlit("construct");
            assert("construct"@.len() == 9);
            reveal_strlit("impl");
            assert("impl"@.len() == 4);
            reveal_strlit("return");
            assert("return"@.len() == 6);
            reveal_strlit("yield");
            assert("yield"@.len() == 5);
            reveal_strlit("if");
            assert("if"@.len() == 2);
            reveal_strlit("not");
            assert("not"@.len() == 3);
            reveal_strlit("or");
            assert("or"@.len() == 2);
            reveal_strlit("and");
            assert("and"@.len() == 3);
            reveal_strlit("else");
            assert("else"@.len() == 4);
            reveal_strlit("match");
            assert("match"@.len() == 5);
            reveal_strlit("is");
            assert("is"@.len() == 2);
            reveal_strlit("loop");
            assert("loop"@.len() == 4);
            reveal_strlit("while");
            assert("while"@.len() == 5);
            reveal_strlit("for");
            assert("for"@.len() == 3);
            reveal_strlit("in");
            assert("in"@.len() == 2);
            reveal_strlit("safe");
            assert("safe"@.len() == 4);
            reveal_strlit("async");
            assert("async"@.len() == 5);
            reveal_strlit("await");
            assert("await"@.len() == 5);
            reveal_strlit("bool");
            assert("bool"@.len() == 4);
            reveal_strlit("bit");
            assert("bit"@.len() == 3);
            reveal_strlit("byte");
            assert("byte"@.len() == 4);
            reveal_strlit("uint");
            assert("uint"@.len() == 4);
            reveal_strlit("uint8");
            assert("uint8"@.len() == 5);
            reveal_strlit("uint16");
            assert("uint16"@.len() == 6);
            reveal_strlit("uint32");
            assert("uint32"@.len() == 6);
            reveal_strlit("uint64");
            assert("uint64"@.len() == 6);
            reveal_strlit("uint128");
            assert("uint128"@.len() == 7);
            reveal_strlit("biguint");
            assert("biguint"@.len() == 7);
            reveal_strlit("int");
            assert("int"@.len() == 3);
            assert("int"@[0] != "err"@[0]);
            assert("int"@[0] != "use"@[0]);
            assert("int"@[0] != "pub"@[0]);
            assert("int"@[0] != "let"@[0]);
            assert("int"@[0] != "not"@[0]);
            assert("int"@[0] != "and"@[0]);
            assert("int"@[0] != "for"@[0]);
            assert("int"@[0] != "bit"@[0]);
        },
        Primitive::Int8 => {
            reveal_strlit("true");
            assert("true"@.len() == 4);
            reveal_strlit("false");
            assert("false"@.len() == 5);
            reveal_strlit("some");
            assert("some"@.len() == 4);
            reveal_strlit("none");
            assert("none"@.len() == 4);
            reveal_strlit("ok");
            assert("ok"@.len() == 2);
            reveal_strlit("err");
            assert("err"@.len() == 3);
            reveal_strlit("use");
            assert("use"@.len() == 3);
            reveal_strlit("from");
            assert("from"@.len() == 4);
            reveal_strlit("pub");
            assert("pub"@.len() == 3);
            reveal_strlit("static");
            assert("static"@.len() == 6);
            reveal_strlit("fn");
            assert("fn"@.len() == 2);
            reveal_strlit("let");
            assert("let"@.len() == 3);
            reveal_strlit("const");
            assert("const"@.len() == 5);
            reveal_strlit("struct");
            assert("struct"@.len() == 6);
            reveal_strlit("contract");
            assert("contract"@.len() == 8);
            reveal_strlit("enum");
            assert("enum"@.len() == 4);
            reveal_strlit("type");
            assert("type"@.len() == 4);
            reveal_strlit("alias");
            assert("alias"@.len() == 5);
            reveal_strlit("errors");
            assert("errors"@.len() == 6);
            reveal_strlit("self");
            assert("self"@.len() == 4);
            reveal_strlit("construct");
            assert("construct"@.len() == 9);
            reveal_strlit("impl");
            assert("impl"@.len() == 4);
            reveal_strlit("return");
            assert("return"@.len() == 6);
            reveal_strlit("yield");
            assert("yield"@.len() == 5);
            reveal_strlit("if");
            assert("if"@.len() == 2);
            reveal_strlit("not");
            assert("not"@.len() == 3);
            reveal_strlit("or");
            assert("or"@.len() == 2);
            reveal_strlit("and");
            assert("and"@.len() == 3);
            reveal_strlit("else");
            assert("else"@.len() == 4);
            reveal_strlit("match");
            assert("match"@.len() == 5);
            reveal_strlit("is");
            assert("is"@.len() == 2);
            reveal_strlit("loop");
            assert("loop"@.len() == 4);
            reveal_strlit("while");
            assert("while"@.len() == 5);
            reveal_strlit("for");
            assert("for"@.len() == 3);
            reveal_strlit("in");
            assert("in"@.len() == 2);
            reveal_strlit("safe");
            assert("safe"@.len() == 4);
            reveal_strlit("async");
            assert("async"@.len() == 5);
            reveal_strlit("await");
            assert("await"@.len() == 5);
            reveal_strlit("bool");
            assert("bool"@.len() == 4);
            reveal_strlit("bit");
            assert("bit"@.len() == 3);
            reveal_strlit("byte");
            assert("byte"@.len() == 4);
            reveal_strlit("uint");
            assert("uint"@.len() == 4);
            reveal_strlit("uint8");
            assert("uint8"@.len() == 5);
            reveal_strlit("uint16");
            assert("uint16"@.len() == 6);
            reveal_strlit("uint32");
            assert("uint32"@.len() == 6);
            reveal_strlit("uint64");
            assert("uint64"@.len() == 6);
            reveal_strlit("uint128");
            assert("uint128"@.len() == 7);
            reveal_strlit("biguint");
            assert("biguint"@.len() == 7);
            reveal_strlit("int");
            assert("int"@.len() == 3);
            reveal_strlit("int8");
            assert("int8"@.len() == 4);
            assert("int8"@[0] != "true"@[0]);
            assert("int8"@[0] != "some"@[0]);
            assert("int8"@[0] != "none"@[0]);
            assert("int8"@[0] != "from"@[0]);
            assert("int8"@[0] != "enum"@[0]);
            assert("int8"@[0] != "type"@[0]);
            assert("int8"@[0] != "self"@[0]);
            assert("int8"@[1] != "impl"@[1]);
            assert("int8"@[0] != "else"@[0]);
            assert("int8"@[0] != "loop"@[0]);
            assert("int8"@[0] != "safe"@[0]);
            assert("int8"@[0] != "bool"@[0]);
            assert("int8"@[0] != "byte"@[0]);
            assert("int8"@[0] != "uint"@[0]);
        },
        Primitive::Int16 => {
            reveal_strlit("true");
            assert("true"@.len() == 4);
            reveal_strlit("false");
            assert("false"@.len() == 5);
            reveal_strlit("some");
            assert("some"@.len() == 4);
            reveal_strlit("none");
            assert("none"@.len() == 4);
            reveal_strlit("ok");
            assert("ok"@.len() == 2);
            reveal_strlit("err");
            assert("err"@.len() == 3);
            reveal_strlit("use");
            assert("use"@.len() == 3);
            reveal_strlit("from");
            assert("from"@.len() == 4);
            reveal_strlit("pub");
            assert("pub"@.len() == 3);
            reveal_strlit("static");
            assert("static"@.len() == 6);
            reveal_strlit("fn");
            assert("fn"@.len() == 2);
            reveal_strlit("let");
            assert("let"@.len() == 3);
            reveal_strlit("const");
            assert("const"@.len() == 5);
            reveal_strlit("struct");
            assert("struct"@.len() == 6);
            reveal_strlit("contract");
            assert("contract"@.len() == 8);
            reveal_strlit("enum");
            assert("enum"@.len() == 4);
            reveal_strlit("type");
            assert("type"@.len() == 4);
            reveal_strlit("alias");
            assert("alias"@.len() == 5);
            reveal_strlit("errors");
            assert("errors"@.len() == 6);
            reveal_strlit("self");
            assert("self"@.len() == 4);
            reveal_strlit("construct");
            assert("construct"@.len() == 9);
            reveal_strlit("impl");
            assert("impl"@.len() == 4);
            reveal_strlit("return");
            assert("return"@.len() == 6);
            reveal_strlit("yield");
            assert("yield"@.len() == 5);
            reveal_strlit("if");
            assert("if"@.len() == 2);
            reveal_strlit("not");
            assert("not"@.len() == 3);
            reveal_strlit("or");
            assert("or"@.len() == 2);
            reveal_strlit("and");
            assert("and"@.len() == 3);
            reveal_strlit("else");
            assert("else"@.len() == 4);
            reveal_strlit("match");
            assert("match"@.len() == 5);
            reveal_strlit("is");
            assert("is"@.len() == 2);
            reveal_strlit("loop");
            assert("loop"@.len() == 4);
            reveal_strlit("while");
            assert("while"@.len() == 5);
            reveal_strlit("for");
            assert("for"@.len() == 3);
            reveal_strlit("in");
            assert("in"@.len() == 2);
            reveal_strlit("safe");
            assert("safe"@.len() == 4);
            reveal_strlit("async");
            assert("async"@.len() == 5);
            reveal_strlit("await");
            assert("await"@.len() == 5);
            reveal_strlit("bool");
            assert("bool"@.len() == 4);
            reveal_strlit("bit");
            assert("bit"@.len() == 3);
            reveal_strlit("byte");
            assert("byte"@.len() == 4);
            reveal_strlit("uint");
            assert("uint"@.len() == 4);
            reveal_strlit("uint8");
            assert("uint8"@.len() == 5);
            reveal_strlit("uint16");
            assert("uint16"@.len() == 6);
            reveal_strlit("uint32");
            assert("uint32"@.len() == 6);
            reveal_strlit("uint64");
            assert("uint64"@.len() == 6);
            reveal_strlit("uint128");
            assert("uint128"@.len() == 7);
            reveal_strlit("biguint");
            assert("biguint"@.len() == 7);
            reveal_strlit("int");
            assert("int"@.len() == 3);
            reveal_strlit("int8");
            assert("int8"@.len() == 4);
            reveal_strlit("int16");
            assert("int16"@.len() == 5);
            assert("int16"@[0] != "false"@[0]);
            assert("int16"@[0] != "const"@[0]);
            assert("int16"@[0] != "alias"@[0]);
            assert("int16"@[0] != "yield"@[0]);
            assert("int16"@[0] != "match"@[0]);
            assert("int16"@[0] != "while"@[0]);
            assert("int16"@[0] != "async"@[0]);
            assert("int16"@[0] != "await"@[0]);
            assert("int16"@[0] != "uint8"@[0]);
        },
        Primitive::Int32 => {
            reveal_strlit("true");
            assert("true"@.len() == 4);
            reveal_strlit("false");
            assert("false"@.len() == 5);
            reveal_strlit("some");
            assert("some"@.len() == 4);
            reveal_strlit("none");
            assert("none"@.len() == 4);
            reveal_strlit("ok");
            assert("ok"@.len() == 2);
            reveal_strlit("err");
            assert("err"@.len() == 3);
            reveal_strlit("use");
            assert("use"@.len() == 3);
            reveal_strlit("from");
            assert("from"@.len() == 4);
            reveal_strlit("pub");
            assert("pub"@.len() == 3);
            reveal_strlit("static");
            assert("static"@.len() == 6);
            reveal_strlit("fn");
            assert("fn"@.len() == 2);
            reveal_strlit("let");
            assert("let"@.len() == 3);
            reveal_strlit("const");
            assert("const"@.len() == 5);
            reveal_strlit("struct");
            assert("struct"@.len() == 6);
            reveal_strlit("contract");
            assert("contract"@.len() == 8);
            reveal_strlit("enum");
            assert("enum"@.len() == 4);
            reveal_strlit("type");
            assert("type"@.len() == 4);
            reveal_strlit("alias");
            assert("alias"@.len() == 5);
            reveal_strlit("errors");
            assert("errors"@.len() == 6);
            reveal_strlit("self");
            assert("self"@.len() == 4);
            reveal_strlit("construct");
            assert("construct"@.len() == 9);
            reveal_strlit("impl");
            assert("impl"@.len() == 4);
            reveal_strlit("return");
            assert("return"@.len() == 6);
            reveal_strlit("yield");
            assert("yield"@.len() == 5);
            reveal_strlit("if");
            assert("if"@.len() == 2);
            reveal_strlit("not");
            assert("not"@.len() == 3);
            reveal_strlit("or");
            assert("or"@.len() == 2);
            reveal_strlit("and");
            assert("and"@.len() == 3);
            reveal_strlit("else");
            assert("else"@.len() == 4);
            reveal_strlit("match");
            assert("match"@.len() == 5);
            reveal_strlit("is");
            assert("is"@.len() == 2);
            reveal_strlit("loop");
            assert("loop"@.len() == 4);
            reveal_strlit("while");
            assert("while"@.len() == 5);
            reveal_strlit("for");
            assert("for"@.len() == 3);
            reveal_strlit("in");
            assert("in"@.len() == 2);
            reveal_strlit("safe");
            assert("safe"@.len() == 4);
            reveal_strlit("async");
            assert("async"@.len() == 5);
            reveal_strlit("await");
            assert("await"@.len() == 5);
            reveal_strlit("bool");
            assert("bool"@.len() == 4);
            reveal_strlit("bit");
            assert("bit"@.len() == 3);
            reveal_strlit("byte");
            assert("byte"@.len() == 4);
            reveal_strlit("uint");
            assert("uint"@.len() == 4);
            reveal_strlit("uint8");
            assert("uint8"@.len() == 5);
            reveal_strlit("uint16");
            assert("uint16"@.len() == 6);
            reveal_strlit("uint32");
            assert("uint32"@.len() == 6);
            reveal_strlit("uint64");
            assert("uint64"@.len() == 6);
            reveal_strlit("uint128");
            assert("uint128"@.len() == 7);
            reveal_strlit("biguint");
            assert("biguint"@.len() == 7);
            reveal_strlit("int");
            assert("int"@.len() == 3);
            reveal_strlit("int8");
            assert("int8"@.len() == 4);
            reveal_strlit("int16");
            assert("int16"@.len() == 5);
            reveal_strlit("int32");
            assert("int32"@.len() == 5);
            assert("int32"@[0] != "false"@[0]);
            assert("int32"@[0] != "const"@[0]);
            assert("int32"@[0] != "alias"@[0]);
            assert("int32"@[0] != "yield"@[0]);
            assert("int32"@[0] != "match"@[0]);
            assert("int32"@[0] != "while"@[0]);
            assert("int32"@[0] != "async"@[0]);
            assert("int32"@[0] != "await"@[0]);
            assert("int32"@[0] != "uint8"@[0]);
            assert("int32"@[3] != "int16"@[3]);
        },
        Primitive::Int64 => {
            reveal_strlit("true");
            assert("true"@.len() == 4);
            reveal_strlit("false");
            assert("false"@.len() == 5);
            reveal_strlit("some");
            assert("some"@.len() == 4);
            reveal_strlit("none");
            assert("none"@.len() == 4);
            reveal_strlit("ok");
            assert("ok"@.len() == 2);
            reveal_strlit("err");
            assert("err"@.len() == 3);
            reveal_strlit("use");
            assert("use"@.len() == 3);
            reveal_strlit("from");
            assert("from"@.len() == 4);
            reveal_strlit("pub");
            assert("pub"@.len() == 3);
            reveal_strlit("static");
            assert("static"@.len() == 6);
            reveal_strlit("fn");
            assert("fn"@.len() == 2);
            reveal_strlit("let");
            assert("let"@.len() == 3);
            reveal_strlit("const");
            assert("const"@.len() == 5);
            reveal_strlit("struct");
            assert("struct"@.len() == 6);
            reveal_strlit("contract");
            assert("contract"@.len() == 8);
            reveal_strlit("enum");
            assert("enum"@.len() == 4);
            reveal_strlit("type");
            assert("type"@.len() == 4);
            reveal_strlit("alias");
            assert("alias"@.len() == 5);
            reveal_strlit("errors");
            assert("errors"@.len() == 6);
            reveal_strlit("self");
            assert("self"@.len() == 4);
            reveal_strlit("construct");
            assert("construct"@.len() == 9);
            reveal_strlit("impl");
            assert("impl"@.len() == 4);
            reveal_strlit("return");
            assert("return"@.len() == 6);
            reveal_strlit("yield");
            assert("yield"@.len() == 5);
            reveal_strlit("if");
            assert("if"@.len() == 2);
            reveal_strlit("not");
            assert("not"@.len() == 3);
            reveal_strlit("or");
            assert("or"@.len() == 2);
            reveal_strlit("and");
            assert("and"@.len() == 3);
            reveal_strlit("else");
            assert("else"@.len() == 4);
            reveal_strlit("match");
            assert("match"@.len() == 5);
            reveal_strlit("is");
            assert("is"@.len() == 2);
            reveal_strlit("loop");
            assert("loop"@.len() == 4);
            reveal_strlit("while");
            assert("while"@.len() == 5);
            reveal_strlit("for");
            assert("for"@.len() == 3);
            reveal_strlit("in");
            assert("in"@.len() == 2);
            reveal_strlit("safe");
            assert("safe"@.len() == 4);
            reveal_strlit("async");
            assert("async"@.len() == 5);
            reveal_strlit("await");
            assert("await"@.len() == 5);
            reveal_strlit("bool");
            assert("bool"@.len() == 4);
            reveal_strlit("bit");
            assert("bit"@.len() == 3);
            reveal_strlit("byte");
            assert("byte"@.len() == 4);
            reveal_strlit("uint");
            assert("uint"@.len() == 4);
            reveal_strlit("uint8");
            assert("uint8"@.len() == 5);
            reveal_strlit("uint16");
            assert("uint16"@.len() == 6);
            reveal_strlit("uint32");
            assert("uint32"@.len() == 6);
            reveal_strlit("uint64");
            assert("uint64"@.len() == 6);
            reveal_strlit("uint128");
            assert("uint128"@.len() == 7);
            reveal_strlit("biguint");
            assert("biguint"@.len() == 7);
            reveal_strlit("int");
            assert("int"@.len() == 3);
            reveal_strlit("int8");
            assert("int8"@.len() == 4);
            reveal_strlit("int16");
            assert("int16"@.len() == 5);
            reveal_strlit("int32");
            assert("int32"@.len() == 5);
            reveal_strlit("int64");
            assert("int64"@.len() == 5);
            assert("int64"@[0] != "false"@[0]);
            assert("int64"@[0] != "const"@[0]);
            assert("int64"@[0] != "alias"@[0]);
            assert("int64"@[0] != "yield"@[0]);
            assert("int64"@[0] != "match"@[0]);
            assert("int64"@[0] != "while"@[0]);
            assert("int64"@[0] != "async"@[0]);
            assert("int64"@[0] != "await"@[0]);
            assert("int64"@[0] != "uint8"@[0]);
            assert("int64"@[3] != "int16"@[3]);
            assert("int64"@[3] != "int32"@[3]);
        },
        Primitive::Int128 => {
            reveal_strlit("true");
            assert("true"@.len() == 4);
            reveal_strlit("false");
            assert("false"@.len() == 5);
            reveal_strlit("some");
            assert("some"@.len() == 4);
            reveal_strlit("none");
            assert("none"@.len() == 4);
            reveal_strlit("ok");
            assert("ok"@.len() == 2);
            reveal_strlit("err");
            assert("err"@.len() == 3);
            reveal_strlit("use");
            assert("use"@.len() == 3);
            reveal_strlit("from");
            assert("from"@.len() == 4);
            reveal_strlit("pub");
            assert("pub"@.len() == 3);
            reveal_strlit("static");
            assert("static"@.len() == 6);
            reveal_strlit("fn");
            assert("fn"@.len() == 2);
            reveal_strlit("let");
            assert("let"@.len() == 3);
            reveal_strlit("const");
            assert("const"@.len() == 5);
            reveal_strlit("struct");
            assert("struct"@.len() == 6);
            reveal_strlit("contract");
            assert("contract"@.len() == 8);
            reveal_strlit("enum");
            assert("enum"@.len() == 4);
            reveal_strlit("type");
            assert("type"@.len() == 4);
            reveal_strlit("alias");
            assert("alias"@.len() == 5);
            reveal_strlit("errors");
            assert("errors"@.len() == 6);
            reveal_strlit("self");
            assert("self"@.len() == 4);
            reveal_strlit("construct");
            assert("construct"@.len() == 9);
            reveal_strlit("impl");
            assert("impl"@.len() == 4);
            reveal_strlit("return");
            assert("return"@.len() == 6);
            reveal_strlit("yield");
            assert("yield"@.len() == 5);
            reveal_strlit("if");
            assert("if"@.len() == 2);
            reveal_strlit("not");
            assert("not"@.len() == 3);
            reveal_strlit("or");
            assert("or"@.len() == 2);
            reveal_strlit("and");
            assert("and"@.len() == 3);
            reveal_strlit("else");
            assert("else"@.len() == 4);
            reveal_strlit("match");
            assert("match"@.len() == 5);
            reveal_strlit("is");
            assert("is"@.len() == 2);
            reveal_strlit("loop");
            assert("loop"@.len() == 4);
            reveal_strlit("while");
            assert("while"@.len() == 5);
            reveal_strlit("for");
            assert("for"@.len() == 3);
            reveal_strlit("in");
            assert("in"@.len() == 2);
            reveal_strlit("safe");
            assert("safe"@.len() == 4);
            reveal_strlit("async");
            assert("async"@.len() == 5);
            reveal_strlit("await");
            assert("await"@.len() == 5);
            reveal_strlit("bool");
            assert("bool"@.len() == 4);
            reveal_strlit("bit");
            assert("bit"@.len() == 3);
            reveal_strlit("byte");
            assert("byte"@.len() == 4);
            reveal_strlit("uint");
            assert("uint"@.len() == 4);
            reveal_strlit("uint8");
            assert("uint8"@.len() == 5);
            reveal_strlit("uint16");
            assert("uint16"@.len() == 6);
            reveal_strlit("uint32");
            assert("uint32"@.len() == 6);
            reveal_strlit("uint64");
            assert("uint64"@.len() == 6);
            reveal_strlit("uint128");
            assert("uint128"@.len() == 7);
            reveal_strlit("biguint");
            assert("biguint"@.len() == 7);
            reveal_strlit("int");
            assert("int"@.len() == 3);
            reveal_strlit("int8");
            assert("int8"@.len() == 4);
            reveal_strlit("int16");
            assert("int16"@.len() == 5);
            reveal_strlit("int32");
            assert("int32"@.len() == 5);
            reveal_strlit("int64");
            assert("int64"@.len() == 5);
            reveal_strlit("int128");
            assert("int128"@.len() == 6);
            assert("int128"@[0] != "static"@[0]);
            assert("int128"@[0] != "struct"@[0]);
            assert("int128"@[0] != "errors"@[0]);
            assert("int128"@[0] != "return"@[0]);
            assert("int128"@[0] != "uint16"@[0]);
            assert("int128"@[0] != "uint32"@[0]);
            assert("int128"@[0] != "uint64"@[0]);
        },
        Primitive::BigInt => {
            reveal_strlit("true");
            assert("true"@.len() == 4);
            reveal_strlit("false");
            assert("false"@.len() == 5);
            reveal_strlit("some");
            assert("some"@.len() == 4);
            reveal_strlit("none");
            assert("none"@.len() == 4);
            reveal_strlit("ok");
            assert("ok"@.len() == 2);
            reveal_strlit("err");
            assert("err"@.len() == 3);
            reveal_strlit("use");
            assert("use"@.len() == 3);
            reveal_strlit("from");
            assert("from"@.len() == 4);
            reveal_strlit("pub");
            assert("pub"@.len() == 3);
            reveal_strlit("static");
            assert("static"@.len() == 6);
            reveal_strlit("fn");
            assert("fn"@.len() == 2);
            reveal_strlit("let");
            assert("let"@.len() == 3);
            reveal_strlit("const");
            assert("const"@.len() == 5);
            reveal_strlit("struct");
            assert("struct"@.len() == 6);
            reveal_strlit("contract");
            assert("contract"@.len() == 8);
            reveal_strlit("enum");
            assert("enum"@.len() == 4);
            reveal_strlit("type");
            assert("type"@.len() == 4);
            reveal_strlit("alias");
            assert("alias"@.len() == 5);
            reveal_strlit("errors");
            assert("errors"@.len() == 6);
            reveal_strlit("self");
            assert("self"@.len() == 4);
            reveal_strlit("construct");
            assert("construct"@.len() == 9);
            reveal_strlit("impl");
            assert("impl"@.len() == 4);
            reveal_strlit("return");
            assert("return"@.len() == 6);
            reveal_strlit("yield");
            assert("yield"@.len() == 5);
            reveal_strlit("if");
            assert("if"@.len() == 2);
            reveal_strlit("not");
            assert("not"@.len() == 3);
            reveal_strlit("or");
            assert("or"@.len() == 2);
            reveal_strlit("and");
            assert("and"@.len() == 3);
            reveal_strlit("else");
            assert("else"@.len() == 4);
            reveal_strlit("match");
            assert("match"@.len() == 5);
            reveal_strlit("is");
            assert("is"@.len() == 2);
            reveal_strlit("loop");
            assert("loop"@.len() == 4);
            reveal_strlit("while");
            assert("while"@.len() == 5);
            reveal_strlit("for");
            assert("for"@.len() == 3);
            reveal_strlit("in");
            assert("in"@.len() == 2);
            reveal_strlit("safe");
            assert("safe"@.len() == 4);
            reveal_strlit("async");
            assert("async"@.len() == 5);
            reveal_strlit("await");
            assert("await"@.len() == 5);
            reveal_strlit("bool");
            assert("bool"@.len() == 4);
            reveal_strlit("bit");
            assert("bit"@.len() == 3);
            reveal_strlit("byte");
            assert("byte"@.len() == 4);
            reveal_strlit("uint");
            assert("uint"@.len() == 4);
            reveal_strlit("uint8");
            assert("uint8"@.len() == 5);
            reveal_strlit("uint16");
            assert("uint16"@.len() == 6);
            reveal_strlit("uint32");
            assert("uint32"@.len() == 6);
            reveal_strlit("uint64");
            assert("uint64"@.len() == 6);
            reveal_strlit("uint128");
            assert("uint128"@.len() == 7);
            reveal_strlit("biguint");
            assert("biguint"@.len() == 7);
            reveal_strlit("int");
            assert("int"@.len() == 3);
            reveal_strlit("int8");
            assert("int8"@.len() == 4);
            reveal_strlit("int16");
            assert("int16"@.len() == 5);
            reveal_strlit("int32");
            assert("int32"@.len() == 5);
            reveal_strlit("int64");
            assert("int64"@.len() == 5);
            reveal_strlit("int128");
            assert("int128"@.len() == 6);
            reveal_strlit("bigint");
            assert("bigint"@.len() == 6);
            assert("bigint"@[0] != "static"@[0]);
            assert("bigint"@[0] != "struct"@[0]);
            assert("bigint"@[0] != "errors"@[0]);
            assert("bigint"@[0] != "return"@[0]);
            assert("bigint"@[0] != "uint16"@[0]);
            assert("bigint"@[0] != "uint32"@[0]);
            assert("bigint"@[0] != "uint64"@[0]);
            assert("bigint"@[0] != "int128"@[0]);
        },
        Primitive::Float => {
            reveal_strlit("true");
            assert("true"@.len() == 4);
            reveal_strlit("false");
            assert("false"@.len() == 5);
            reveal_strlit("some");
            assert("some"@.len() == 4);
            reveal_strlit("none");
            assert("none"@.len() == 4);
            reveal_strlit("ok");
            assert("ok"@.len() == 2);
            reveal_strlit("err");
            assert("err"@.len() == 3);
            reveal_strlit("use");
            assert("use"@.len() == 3);
            reveal_strlit("from");
            assert("from"@.len() == 4);
            reveal_strlit("pub");
            assert("pub"@.len() == 3);
            reveal_strlit("static");
            assert("static"@.len() == 6);
            reveal_strlit("fn");
            assert("fn"@.len() == 2);
            reveal_strlit("let");
            assert("let"@.len() == 3);
            reveal_strlit("const");
            assert("const"@.len() == 5);
            reveal_strlit("struct");
            assert("struct"@.len() == 6);
            reveal_strlit("contract");
            assert("contract"@.len() == 8);
            reveal_strlit("enum");
            assert("enum"@.len() == 4);
            reveal_strlit("type");
            assert("type"@.len() == 4);
            reveal_strlit("alias");
            assert("alias"@.len() == 5);
            reveal_strlit("errors");
            assert("errors"@.len() == 6);
            reveal_strlit("self");
            assert("self"@.len() == 4);
            reveal_strlit("construct");
            assert("construct"@.len() == 9);
            reveal_strlit("impl");
            assert("impl"@.len() == 4);
            reveal_strlit("return");
            assert("return"@.len() == 6);
            reveal_strlit("yield");
            assert("yield"@.len() == 5);
            reveal_strlit("if");
            assert("if"@.len() == 2);
            reveal_strlit("not");
            assert("not"@.len() == 3);
            reveal_strlit("or");
            assert("or"@.len() == 2);
            reveal_strlit("and");
            assert("and"@.len() == 3);
            reveal_strlit("else");
            assert("else"@.len() == 4);
            reveal_strlit("match");
            assert("match"@.len() == 5);
            reveal_strlit("is");
            assert("is"@.len() == 2);
            reveal_strlit("loop");
            assert("loop"@.len() == 4);
            reveal_strlit("while");
            assert("while"@.len() == 5);
            reveal_strlit("for");
            assert("for"@.len() == 3);
            reveal_strlit("in");
            assert("in"@.len() == 2);
            reveal_strlit("safe");
            assert("safe"@.len() == 4);
            reveal_strlit("async");
            assert("async"@.len() == 5);
            reveal_strlit("await");
            assert("await"@.len() == 5);
            reveal_strlit("bool");
            assert("bool"@.len() == 4);
            reveal_strlit("bit");
            assert("bit"@.len() == 3);
            reveal_strlit("byte");
            assert("byte"@.len() == 4);
            reveal_strlit("uint");
            assert("uint"@.len() == 4);
            reveal_strlit("uint8");
            assert("uint8"@.len() == 5);
            reveal_strlit("uint16");
            assert("uint16"@.len() == 6);
            reveal_strlit("uint32");
            assert("uint32"@.len() == 6);
            reveal_strlit("uint64");
            assert("uint64"@.len() == 6);
            reveal_strlit("uint128");
            assert("uint128"@.len() == 7);
            reveal_strlit("biguint");
            assert("biguint"@.len() == 7);
            reveal_strlit("int");
            assert("int"@.len() == 3);
            reveal_strlit("int8");
            assert("int8"@.len() == 4);
            reveal_strlit("int16");
            assert("int16"@.len() == 5);
            reveal_strlit("int32");
            assert("int32"@.len() == 5);
            reveal_strlit("int64");
            assert("int64"@.len() == 5);
            reveal_strlit("int128");
            assert("int128"@.len() == 6);
            reveal_strlit("bigint");
            assert("bigint"@.len() == 6);
            reveal_strlit("float");
            assert("float"@.len() == 5);
            assert("float"@[1] != "false"@[1]);
            assert("float"@[0] != "const"@[0]);
            assert("float"@[0] != "alias"@[0]);
            assert("float"@[0] != "yield"@[0]);
            assert("float"@[0] != "match"@[0]);
            assert("float"@[0] != "while"@[0]);
            assert("float"@[0] != "async"@[0]);
            assert("float"@[0] != "await"@[0]);
            assert("float"@[0] != "uint8"@[0]);
            assert("float"@[0] != "int16"@[0]);
            assert("float"@[0] != "int32"@[0]);
            assert("float"@[0] != "int64"@[0]);
        },
        Primitive::Float32 => {
            reveal_strlit("true");
            assert("true"@.len() == 4);
            reveal_strlit("false");
            assert("false"@.len() == 5);
            reveal_strlit("some");
            assert("some"@.len() == 4);
            reveal_strlit("none");
            assert("none"@.len() == 4);
            reveal_strlit("ok");
            assert("ok"@.len() == 2);
            reveal_strlit("err");
            assert("err"@.len() == 3);
            reveal_strlit("use");
            assert("use"@.len() == 3);
            reveal_strlit("from");
            assert("from"@.len() == 4);
            reveal_strlit("pub");
            assert("pub"@.len() == 3);
            reveal_strlit("static");
            assert("static"@.len() == 6);
            reveal_strlit("fn");
            assert("fn"@.len() == 2);
            reveal_strlit("let");
            assert("let"@.len() == 3);
            reveal_strlit("const");
            assert("const"@.len() == 5);
            reveal_strlit("struct");
            assert("struct"@.len() == 6);
            reveal_strlit("contract");
            assert("contract"@.len() == 8);
            reveal_strlit("enum");
            assert("enum"@.len() == 4);
            reveal_strlit("type");
            assert("type"@.len() == 4);
            reveal_strlit("alias");
            assert("alias"@.len() == 5);
            reveal_strlit("errors");
            assert("errors"@.len() == 6);
            reveal_strlit("self");
            assert("self"@.len() == 4);
            reveal_strlit("construct");
            assert("construct"@.len() == 9);
            reveal_strlit("impl");
            assert("impl"@.len() == 4);
            reveal_strlit("return");
            assert("return"@.len() == 6);
            reveal_strlit("yield");
            assert("yield"@.len() == 5);
            reveal_strlit("if");
            assert("if"@.len() == 2);
            reveal_strlit("not");
            assert("not"@.len() == 3);
            reveal_strlit("or");
            assert("or"@.len() == 2);
            reveal_strlit("and");
            assert("and"@.len() == 3);
            reveal_strlit("else");
            assert("else"@.len() == 4);
            reveal_strlit("match");
            assert("match"@.len() == 5);
            reveal_strlit("is");
            assert("is"@.len() == 2);
            reveal_strlit("loop");
            assert("loop"@.len() == 4);
            reveal_strlit("while");
            assert("while"@.len() == 5);
            reveal_strlit("for");
            assert("for"@.len() == 3);
            reveal_strlit("in");
            assert("in"@.len() == 2);
            reveal_strlit("safe");
            assert("safe"@.len() == 4);
            reveal_strlit("async");
            assert("async"@.len() == 5);
            reveal_strlit("await");
            assert("await"@.len() == 5);
            reveal_strlit("bool");
            assert("bool"@.len() == 4);
            reveal_strlit("bit");
            assert("bit"@.len() == 3);
            reveal_strlit("byte");
            assert("byte"@.len() == 4);
            reveal_strlit("uint");
            assert("uint"@.len() == 4);
            reveal_strlit("uint8");
            assert("uint8"@.len() == 5);
            reveal_strlit("uint16");
            assert("uint16"@.len() == 6);
            reveal_strlit("uint32");
            assert("uint32"@.len() == 6);
            reveal_strlit("uint64");
            assert("uint64"@.len() == 6);
            reveal_strlit("uint128");
            assert("uint128"@.len() == 7);
            reveal_strlit("biguint");
            assert("biguint"@.len() == 7);
            reveal_strlit("int");
            assert("int"@.len() == 3);
            reveal_strlit("int8");
            assert("int8"@.len() == 4);
            reveal_strlit("int16");
            assert("int16"@.len() == 5);
            reveal_strlit("int32");
            assert("int32"@.len() == 5);
            reveal_strlit("int64");
            assert("int64"@.len() == 5);
            reveal_strlit("int128");
            assert("int128"@.len() == 6);
            reveal_strlit("bigint");
            assert("bigint"@.len() == 6);
            reveal_strlit("float");
            assert("float"@.len() == 5);
            reveal_strlit("float32");
            assert("float32"@.len() == 7);
            assert("float32"@[0] != "uint128"@[0]);
            assert("float32"@[0] != "biguint"@[0]);
        },
        Primitive::Float64 => {
            reveal_strlit("true");
            assert("true"@.len() == 4);
            reveal_strlit("false");
            assert("false"@.len() == 5);
            reveal_strlit("some");
            assert("some"@.len() == 4);
            reveal_strlit("none");
            assert("none"@.len() == 4);
            reveal_strlit("ok");
            assert("ok"@.len() == 2);
            reveal_strlit("err");
            assert("err"@.len() == 3);
            reveal_strlit("use");
            assert("use"@.len() == 3);
            reveal_strlit("from");
            assert("from"@.len() == 4);
            reveal_strlit("pub");
            assert("pub"@.len() == 3);
            reveal_strlit("static");
            assert("static"@.len() == 6);
            reveal_strlit("fn");
            assert("fn"@.len() == 2);
            reveal_strlit("let");
            assert("let"@.len() == 3);
            reveal_strlit("const");
            assert("const"@.len() == 5);
            reveal_strlit("struct");
            assert("struct"@.len() == 6);
            reveal_strlit("contract");
            assert("contract"@.len() == 8);
            reveal_strlit("enum");
            assert("enum"@.len() == 4);
            reveal_strlit("type");
            assert("type"@.len() == 4);
            reveal_strlit("alias");
            assert("alias"@.len() == 5);
            reveal_strlit("errors");
            assert("errors"@.len() == 6);
            reveal_strlit("self");
            assert("self"@.len() == 4);
            reveal_strlit("construct");
            assert("construct"@.len() == 9);
            reveal_strlit("impl");
            assert("impl"@.len() == 4);
            reveal_strlit("return");
            assert("return"@.len() == 6);
            reveal_strlit("yield");
            assert("yield"@.len() == 5);
            reveal_strlit("if");
            assert("if"@.len() == 2);
            reveal_strlit("not");
            assert("not"@.len() == 3);
            reveal_strlit("or");
            assert("or"@.len() == 2);
            reveal_strlit("and");
            assert("and"@.len() == 3);
            reveal_strlit("else");
            assert("else"@.len() == 4);
            reveal_strlit("match");
            assert("match"@.len() == 5);
            reveal_strlit("is");
            assert("is"@.len() == 2);
            reveal_strlit("loop");
            assert("loop"@.len() == 4);
            reveal_strlit("while");
            assert("while"@.len() == 5);
            reveal_strlit("for");
            assert("for"@.len() == 3);
            reveal_strlit("in");
            assert("in"@.len() == 2);
            reveal_strlit("safe");
            assert("safe"@.len() == 4);
            reveal_strlit("async");
            assert("async"@.len() == 5);
            reveal_strlit("await");
            assert("await"@.len() == 5);
            reveal_strlit("bool");
            assert("bool"@.len() == 4);
            reveal_strlit("bit");
            assert("bit"@.len() == 3);
            reveal_strlit("byte");
            assert("byte"@.len() == 4);
            reveal_strlit("uint");
            assert("uint"@.len() == 4);
            reveal_strlit("uint8");
            assert("uint8"@.len() == 5);
            reveal_strlit("uint16");
            assert("uint16"@.len() == 6);
            reveal_strlit("uint32");
            assert("uint32"@.len() == 6);
            reveal_strlit("uint64");
            assert("uint64"@.len() == 6);
            reveal_strlit("uint128");
            assert("uint128"@.len() == 7);
            reveal_strlit("biguint");
            assert("biguint"@.len() == 7);
            reveal_strlit("int");
            assert("int"@.len() == 3);
            reveal_strlit("int8");
            assert("int8"@.len() == 4);
            reveal_strlit("int16");
            assert("int16"@.len() == 5);
            reveal_strlit("int32");
            assert("int32"@.len() == 5);
            reveal_strlit("int64");
            assert("int64"@.len() == 5);
            reveal_strlit("int128");
            assert("int128"@.len() == 6);
            reveal_strlit("bigint");
            assert("bigint"@.len() == 6);
            reveal_strlit("float");
            assert("float"@.len() == 5);
            reveal_strlit("float32");
            assert("float32"@.len() == 7);
            reveal_strlit("float64");
            assert("float64"@.len() == 7);
            assert("float64"@[0] != "uint128"@[0]);
            assert("float64"@[0] != "biguint"@[0]);
            assert("float64"@[5] != "float32"@[5]);
        },
        Primitive::BigNum => {
            reveal_strlit("true");
            assert("true"@.len() == 4);
            reveal_strlit("false");
            assert("false"@.len() == 5);
            reveal_strlit("some");
            assert("some"@.len() == 4);
            reveal_strlit("none");
            assert("none"@.len() == 4);
            reveal_strlit("ok");
            assert("ok"@.len() == 2);
            reveal_strlit("err");
            assert("err"@.len() == 3);
            reveal_strlit("use");
            assert("use"@.len() == 3);
            reveal_strlit("from");
            assert("from"@.len() == 4);
            reveal_strlit("pub");
            assert("pub"@.len() == 3);
            reveal_strlit("static");
            assert("static"@.len() == 6);
            reveal_strlit("fn");
            assert("fn"@.len() == 2);
            reveal_strlit("let");
            assert("let"@.len() == 3);
            reveal_strlit("const");
            assert("const"@.len() == 5);
            reveal_strlit("struct");
            assert("struct"@.len() == 6);
            reveal_strlit("contract");
            assert("contract"@.len() == 8);
            reveal_strlit("enum");
            assert("enum"@.len() == 4);
            reveal_strlit("type");
            assert("type"@.len() == 4);
            reveal_strlit("alias");
            assert("alias"@.len() == 5);
            reveal_strlit("errors");
            assert("errors"@.len() == 6);
            reveal_strlit("self");
            assert("self"@.len() == 4);
            reveal_strlit("construct");
            assert("construct"@.len() == 9);
            reveal_strlit("impl");
            assert("impl"@.len() == 4);
            reveal_strlit("return");
            assert("return"@.len() == 6);
            reveal_strlit("yield");
            assert("yield"@.len() == 5);
            reveal_strlit("if");
            assert("if"@.len() == 2);
            reveal_strlit("not");
            assert("not"@.len() == 3);
            reveal_strlit("or");
            assert("or"@.len() == 2);
            reveal_strlit("and");
            assert("and"@.len() == 3);
            reveal_strlit("else");
            assert("else"@.len() == 4);
            reveal_strlit("match");
            assert("match"@.len() == 5);
            reveal_strlit("is");
            assert("is"@.len() == 2);
            reveal_strlit("loop");
            assert("loop"@.len() == 4);
            reveal_strlit("while");
            assert("while"@.len() == 5);
            reveal_strlit("for");
            assert("for"@.len() == 3);
            reveal_strlit("in");
            assert("in"@.len() == 2);
            reveal_strlit("safe");
            assert("safe"@.len() == 4);
            reveal_strlit("async");
            assert("async"@.len() == 5);
            reveal_strlit("await");
            assert("await"@.len() == 5);
            reveal_strlit("bool");
            assert("bool"@.len() == 4);
            reveal_strlit("bit");
            assert("bit"@.len() == 3);
            reveal_strlit("byte");
            assert("byte"@.len() == 4);
            reveal_strlit("uint");
            assert("uint"@.len() == 4);
            reveal_strlit("uint8");
            assert("uint8"@.len() == 5);
            reveal_strlit("uint16");
            assert("uint16"@.len() == 6);
            reveal_strlit("uint32");
            assert("uint32"@.len() == 6);
            reveal_strlit("uint64");
            assert("uint64"@.len() == 6);
            reveal_strlit("uint128");
            assert("uint128"@.len() == 7);
            reveal_strlit("biguint");
            assert("biguint"@.len() == 7);
            reveal_strlit("int");
            assert("int"@.len() == 3);
            reveal_strlit("int8");
            assert("int8"@.len() == 4);
            reveal_strlit("int16");
            assert("int16"@.len() == 5);
            reveal_strlit("int32");
            assert("int32"@.len() == 5);
            reveal_strlit("int64");
            assert("int64"@.len() == 5);
            reveal_strlit("int128");
            assert("int128"@.len() == 6);
            reveal_strlit("bigint");
            assert("bigint"@.len() == 6);
            reveal_strlit("float");
            assert("float"@.len() == 5);
            reveal_strlit("float32");
            assert("float32"@.len() == 7);
            reveal_strlit("float64");
            assert("float64"@.len() == 7);
            reveal_strlit("bignum");
            assert("bignum"@.len() == 6);
            assert("bignum"@[0] != "static"@[0]);
            assert("bignum"@[0] != "struct"@[0]);
            assert("bignum"@[0] != "errors"@[0]);
            assert("bignum"@[0] != "return"@[0]);
            assert("bignum"@[0] != "uint16"@[0]);
            assert("bignum"@[0] != "uint32"@[0]);
            assert("bignum"@[0] != "uint64"@[0]);
            assert("bignum"@[0] != "int128"@[0]);
            assert("bignum"@[3] != "bigint"@[3]);
        },
        Primitive::Char => {
            reveal_strlit("true");
            assert("true"@.len() == 4);
            reveal_strlit("false");
            assert("false"@.len() == 5);
            reveal_strlit("some");
            assert("some"@.len() == 4);
            reveal_strlit("none");
            assert("none"@.len() == 4);
            reveal_strlit("ok");
            assert("ok"@.len() == 2);
            reveal_strlit("err");
            assert("err"@.len() == 3);
            reveal_strlit("use");
            assert("use"@.len() == 3);
            reveal_strlit("from");
            assert("from"@.len() == 4);
            reveal_strlit("pub");
            assert("pub"@.len() == 3);
            reveal_strlit("static");
            assert("static"@.len() == 6);
            reveal_strlit("fn");
            assert("fn"@.len() == 2);
            reveal_strlit("let");
            assert("let"@.len() == 3);
            reveal_strlit("const");
            assert("const"@.len() == 5);
            reveal_strlit("struct");
            assert("struct"@.len() == 6);
            reveal_strlit("contract");
            assert("contract"@.len() == 8);
            reveal_strlit("enum");
            assert("enum"@.len() == 4);
            reveal_strlit("type");
            assert("type"@.len() == 4);
            reveal_strlit("alias");
            assert("alias"@.len() == 5);
            reveal_strlit("errors");
            assert("errors"@.len() == 6);
            reveal_strlit("self");
            assert("self"@.len() == 4);
            reveal_strlit("construct");
            assert("construct"@.len() == 9);
            reveal_strlit("impl");
            assert("impl"@.len() == 4);
            reveal_strlit("return");
            assert("return"@.len() == 6);
            reveal_strlit("yield");
            assert("yield"@.len() == 5);
            reveal_strlit("if");
            assert("if"@.len() == 2);
            reveal_strlit("not");
            assert("not"@.len() == 3);
            reveal_strlit("or");
            assert("or"@.len() == 2);
            reveal_strlit("and");
            assert("and"@.len() == 3);
            reveal_strlit("else");
            assert("else"@.len() == 4);
            reveal_strlit("match");
            assert("match"@.len() == 5);
            reveal_strlit("is");
            assert("is"@.len() == 2);
            reveal_strlit("loop");
            assert("loop"@.len() == 4);
            reveal_strlit("while");
            assert("while"@.len() == 5);
            reveal_strlit("for");
            assert("for"@.len() == 3);
            reveal_strlit("in");
            assert("in"@.len() == 2);
            reveal_strlit("safe");
            assert("safe"@.len() == 4);
            reveal_strlit("async");
            assert("async"@.len() == 5);
            reveal_strlit("await");
            assert("await"@.len() == 5);
            reveal_strlit("bool");
            assert("bool"@.len() == 4);
            reveal_strlit("bit");
            assert("bit"@.len() == 3);
            reveal_strlit("byte");
            assert("byte"@.len() == 4);
            reveal_strlit("uint");
            assert("uint"@.len() == 4);
            reveal_strlit("uint8");
            assert("uint8"@.len() == 5);
            reveal_strlit("uint16");
            assert("uint16"@.len() == 6);
            reveal_strlit("uint32");
            assert("uint32"@.len() == 6);
            reveal_strlit("uint64");
            assert("uint64"@.len() == 6);
            reveal_strlit("uint128");
            assert("uint128"@.len() == 7);
            reveal_strlit("biguint");
            assert("biguint"@.len() == 7);
            reveal_strlit("int");
            assert("int"@.len() == 3);
            reveal_strlit("int8");
            assert("int8"@.len() == 4);
            reveal_strlit("int16");
            assert("int16"@.len() == 5);
            reveal_strlit("int32");
            assert("int32"@.len() == 5);
            reveal_strlit("int64");
            assert("int64"@.len() == 5);
            reveal_strlit("int128");
            assert("int128"@.len() == 6);
            reveal_strlit("bigint");
            assert("bigint"@.len() == 6);
            reveal_strlit("float");
            assert("float"@.len() == 5);
            reveal_strlit("float32");
            assert("float32"@.len() == 7);
            reveal_strlit("float64");
            assert("float64"@.len() == 7);
            reveal_strlit("bignum");
            assert("bignum"@.len() == 6);
            reveal_strlit("char");
            assert("char"@.len() == 4);
            assert("char"@[0] != "true"@[0]);
            assert("char"@[0] != "some"@[0]);
            assert("char"@[0] != "none"@[0]);
            assert("char"@[0] != "from"@[0]);
            assert("char"@[0] != "enum"@[0]);
            assert("char"@[0] != "type"@[0]);
            assert("char"@[0] != "self"@[0]);
            assert("char"@[0] != "impl"@[0]);
            assert("char"@[0] != "else"@[0]);
            assert("char"@[0] != "loop"@[0]);
            assert("char"@[0] != "safe"@[0]);
            assert("char"@[0] != "bool"@[0]);
            assert("char"@[0] != "byte"@[0]);
            assert("char"@[0] != "uint"@[0]);
            assert("char"@[0] != "int8"@[0]);
        },
        Primitive::String => {
            reveal_strlit("true");
            assert("true"@.len() == 4);
            reveal_strlit("false");
            assert("false"@.len() == 5);
            reveal_strlit("some");
            assert("some"@.len() == 4);
            reveal_strlit("none");
            assert("none"@.len() == 4);
            reveal_strlit("ok");
            assert("ok"@.len() == 2);
            reveal_strlit("err");
            assert("err"@.len() == 3);
            reveal_strlit("use");
            assert("use"@.len() == 3);
            reveal_strlit("from");
            assert("from"@.len() == 4);
            reveal_strlit("pub");
            assert("pub"@.len() == 3);
            reveal_strlit("static");
            assert("static"@.len() == 6);
            reveal_strlit("fn");
            assert("fn"@.len() == 2);
            reveal_strlit("let");
            assert("let"@.len() == 3);
            reveal_strlit("const");
            assert("const"@.len() == 5);
            reveal_strlit("struct");
            assert("struct"@.len() == 6);
            reveal_strlit("contract");
            assert("contract"@.len() == 8);
            reveal_strlit("enum");
            assert("enum"@.len() == 4);
            reveal_strlit("type");
            assert("type"@.len() == 4);
            reveal_strlit("alias");
            assert("alias"@.len() == 5);
            reveal_strlit("errors");
            assert("errors"@.len() == 6);
            reveal_strlit("self");
            assert("self"@.len() == 4);
            reveal_strlit("construct");
            assert("construct"@.len() == 9);
            reveal_strlit("impl");
            assert("impl"@.len() == 4);
            reveal_strlit("return");
            assert("return"@.len() == 6);
            reveal_strlit("yield");
            assert("yield"@.len() == 5);
            reveal_strlit("if");
            assert("if"@.len() == 2);
            reveal_strlit("not");
            assert("not"@.len() == 3);
            reveal_strlit("or");
            assert("or"@.len() == 2);
            reveal_strlit("and");
            assert("and"@.len() == 3);
            reveal_strlit("else");
            assert("else"@.len() == 4);
            reveal_strlit("match");
            assert("match"@.len() == 5);
            reveal_strlit("is");
            assert("is"@.len() == 2);
            reveal_strlit("loop");
            assert("loop"@.len() == 4);
            reveal_strlit("while");
            assert("while"@.len() == 5);
            reveal_strlit("for");
            assert("for"@.len() == 3);
            reveal_strlit("in");
            assert("in"@.len() == 2);
            reveal_strlit("safe");
            assert("safe"@.len() == 4);
            reveal_strlit("async");
            assert("async"@.len() == 5);
            reveal_strlit("await");
            assert("await"@.len() == 5);
            reveal_strlit("bool");
            assert("bool"@.len() == 4);
            reveal_strlit("bit");
            assert("bit"@.len() == 3);
            reveal_strlit("byte");
            assert("byte"@.len() == 4);
            reveal_strlit("uint");
            assert("uint"@.len() == 4);
            reveal_strlit("uint8");
            assert("uint8"@.len() == 5);
            reveal_strlit("uint16");
            assert("uint16"@.len() == 6);
            reveal_strlit("uint32");
            assert("uint32"@.len() == 6);
            reveal_strlit("uint64");
            assert("uint64"@.len() == 6);
            reveal_strlit("uint128");
            assert("uint128"@.len() == 7);
            reveal_strlit("biguint");
            assert("biguint"@.len() == 7);
            reveal_strlit("int");
            assert("int"@.len() == 3);
            reveal_strlit("int8");
            assert("int8"@.len() == 4);
            reveal_strlit("int16");
            assert("int16"@.len() == 5);
            reveal_strlit("int32");
            assert("int32"@.len() == 5);
            reveal_strlit("int64");
            assert("int64"@.len() == 5);
            reveal_strlit("int128");
            assert("int128"@.len() == 6);
            reveal_strlit("bigint");
            assert("bigint"@.len() == 6);
            reveal_strlit("float");
            assert("float"@.len() == 5);
            reveal_strlit("float32");
            assert("float32"@.len() == 7);
            reveal_strlit("float64");
            assert("float64"@.len() == 7);
            reveal_strlit("bignum");
            assert("bignum"@.len() == 6);
            reveal_strlit("char");
            assert("char"@.len() == 4);
            reveal_strlit("string");
            assert("string"@.len() == 6);
            assert("string"@[2] != "static"@[2]);
            assert("string"@[3] != "struct"@[3]);
            assert("string"@[0] != "errors"@[0]);
            assert("string"@[0] != "return"@[0]);
            assert("string"@[0] != "uint16"@[0]);
            assert("string"@[0] != "uint32"@[0]);
            assert("string"@[0] != "uint64"@[0]);
            assert("string"@[0] != "int128"@[0]);
            assert("string"@[0] != "bigint"@[0]);
            assert("string"@[0] != "bignum"@[0]);
        },
    }
}

/// Every literal word lexes to its literal.
pub proof fn lemma_literal_words(l: Literal)
    ensures
        literal_word(l) matches Some(w) ==> word_kind(w) == TokenType::Literal(l),
{
    if literal_word(l) == Some("true"@) {
        reveal_strlit("true");
        assert("true"@.len() == 4);
    }
    if literal_word(l) == Some("false"@) {
        reveal_strlit("true");
        assert("true"@.len() == 4);
        reveal_strlit("false");
        assert("false"@.len() == 5);
    }
    if literal_word(l) == Some("some"@) {
        reveal_strlit("true");
        assert("true"@.len() == 4);
        reveal_strlit("false");
        assert("false"@.len() == 5);
        reveal_strlit("some");
        assert("some"@.len() == 4);
        assert("some"@[0] != "true"@[0]);
    }
    if literal_word(l) == Some("none"@) {
        reveal_strlit("true");
        assert("true"@.len() == 4);
        reveal_strlit("false");
        assert("false"@.len() == 5);
        reveal_strlit("some");
        assert("some"@.len() == 4);
        reveal_strlit("none");
        assert("none"@.len() == 4);
        assert("none"@[0] != "true"@[0]);
        assert("none"@[0] != "some"@[0]);
    }
    if literal_word(l) == Some("ok"@) {
        reveal_strlit("true");
        assert("true"@.len() == 4);
        reveal_strlit("false");
        assert("false"@.len() == 5);
        reveal_strlit("some");
        assert("some"@.len() == 4);
        reveal_strlit("none");
        assert("none"@.len() == 4);
        reveal_strlit("ok");
        assert("ok"@.len() == 2);
    }
    if literal_word(l) == Some("err"@) {
        reveal_strlit("true");
        assert("true"@.len() == 4);
        reveal_strlit("false");
        assert("false"@.len() == 5);
        reveal_strlit("some");
        assert("some"@.len() == 4);
        reveal_strlit("none");
        assert("none"@.len() == 4);
        reveal_strlit("ok");
        assert("ok"@.len() == 2);
        reveal_strlit("err");
        assert("err"@.len() == 3);
    }
}

/// A word that is no reserved word (but possibly `mut`), no primitive type
/// name and no literal word lexes to a name.
pub proof fn lemma_other_words_are_names(w: Seq<char>)
    requires
        forall|k: Keyword| k != Keyword::Mut ==> w != #[trigger] keyword_text(k),
        forall|p: Primitive| w != #[trigger] primitive_text(p),
        forall|l: Literal| literal_word(l) != Some(w),
    ensures
        word_kind(w) == TokenType::Identifier,
{
    assert(w != keyword_text(Keyword::Use));
    assert(w != keyword_text(Keyword::From));
    assert(w != keyword_text(Keyword::Pub));
    assert(w != keyword_text(Keyword::Static));
    assert(w != keyword_text(Keyword::Fn));
    assert(w != keyword_text(Keyword::Let));
    assert(w != keyword_text(Keyword::Const));
    assert(w != keyword_text(Keyword::Struct));
    assert(w != keyword_text(Keyword::Contract));
    assert(w != keyword_text(Keyword::Enum));
    assert(w != keyword_text(Keyword::Type));
    assert(w != keyword_text(Keyword::Alias));
    assert(w != keyword_text(Keyword::Errors));
    assert(w != keyword_text(Keyword::Self_));
    assert(w != keyword_text(Keyword::Construct));
    assert(w != keyword_text(Keyword::Impl));
    assert(w != keyword_text(Keyword::Return));
    assert(w != keyword_text(Keyword::Yield));
    assert(w != keyword_text(Keyword::If));
    assert(w != keyword_text(Keyword::Not));
    assert(w != keyword_text(Keyword::Or));
    assert(w != keyword_text(Keyword::And));
    assert(w != keyword_text(Keyword::Else));
    assert(w != keyword_text(Keyword::Match));
    assert(w != keyword_text(Keyword::Is));
    assert(w != keyword_text(Keyword::Loop));
    assert(w != keyword_text(Keyword::While));
    assert(w != keyword_text(Keyword::For));
    assert(w != keyword_text(Keyword::In));
    assert(w != keyword_text(Keyword::Safe));
    assert(w != keyword_text(Keyword::Async));
    assert(w != keyword_text(Keyword::Await));
    assert(w != primitive_text(Primitive::Bool));
    assert(w != primitive_text(Primitive::Bit));
    assert(w != primitive_text(Primitive::Byte));
    assert(w != primitive_text(Primitive::Uint));
    assert(w != primitive_text(Primitive::Uint8));
    assert(w != primitive_text(Primitive::Uint16));
    assert(w != primitive_text(Primitive::Uint32));
    assert(w != primitive_text(Primitive::Uint64));
    assert(w != primitive_text(Primitive::Uint128));
    assert(w != primitive_text(Primitive::BigUint));
    assert(w != primitive_text(Primitive::Int));
    assert(w != primitive_text(Primitive::Int8));
    assert(w != primitive_text(Primitive::Int16));
    assert(w != primitive_text(Primitive::Int32));
    assert(w != primitive_text(Primitive::Int64));
    assert(w != primitive_text(Primitive::Int128));
    assert(w != primitive_text(Primitive::BigInt));
    assert(w != primitive_text(Primitive::Float));
    assert(w != primitive_text(Primitive::Float32));
    assert(w != primitive_text(Primitive::Float64));
    assert(w != primitive_text(Primitive::BigNum));
    assert(w != primitive_text(Primitive::Char));
    assert(w != primitive_text(Primitive::String));
    assert(literal_word(Literal::Bool(true)) != Some(w));
    assert(literal_word(Literal::Bool(false)) != Some(w));
    assert(literal_word(Literal::Option { is_some: true }) != Some(w));
    assert(literal_word(Literal::Option { is_some: false }) != Some(w));
    assert(literal_word(Literal::Result { is_ok: true }) != Some(w));
    assert(literal_word(Literal::Result { is_ok: false }) != Some(w));
}

} // verus!

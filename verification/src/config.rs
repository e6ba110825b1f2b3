//! The configuration of a build, and the errors of the whole pipeline.
use vstd::prelude::*;

use crate::parser::ParseError;
use crate::project::CompileError;
use crate::scope::resolve::ScopeError;
use crate::target::{parsed_triple, target_err_view, triple_parse_error, Target, TargetParseError};

verus! {

/// What a build is told: the entry file, the build directory, the output
/// file and the target, each where given.
#[derive(Debug)]
pub struct Config {
    pub entry_file: Option<String>,
    pub build_dir: Option<String>,
    pub out_file: Option<String>,
    pub target: Option<String>,
}

/// Why a configuration cannot be used.
#[derive(Debug)]
pub enum ConfigError {
    /// No entry file was given and none was found.
    EntryFileNotFound,
    /// The target given cannot be read.
    TargetParseError(TargetParseError),
}

/// Why a build fails.
#[derive(Debug)]
pub enum OxidizeError {
    ConfigError(ConfigError),
    /// The text of the file at this path cannot be lexed.
    LexerError(String),
    /// The file at this path cannot be parsed.
    ParserError(String, ParseError),
    /// The scopes of the project cannot be filled in, or a file cannot
    /// stand where it is.
    ScopeError(ScopeError),
    /// A file at this path cannot stand where it is.
    InvalidFile(String),
    /// More files than positions in the module tree.
    TooManyFiles,
}

impl OxidizeError {
    /// The build error for an error of building the module tree.
    pub fn from_compile_error(e: CompileError) -> (r: OxidizeError)
        ensures
            match (e, r) {
                (CompileError::Lex(p), OxidizeError::LexerError(q)) => p == q,
                (CompileError::Parse(p, e1), OxidizeError::ParserError(q, e2)) => p == q && e1 == e2,
                (CompileError::InvalidFile(p), OxidizeError::InvalidFile(q)) => p == q,
                (CompileError::Scope(e1), OxidizeError::ScopeError(e2)) => e1 == e2,
                (CompileError::TooManyFiles, OxidizeError::TooManyFiles) => true,
                _ => false,
            },
    {
        match e {
            CompileError::Lex(p) => OxidizeError::LexerError(p),
            CompileError::Parse(p, e) => OxidizeError::ParserError(p, e),
            CompileError::InvalidFile(p) => OxidizeError::InvalidFile(p),
            CompileError::Scope(e) => OxidizeError::ScopeError(e),
            CompileError::TooManyFiles => OxidizeError::TooManyFiles,
        }
    }
}

/// The target of a build: the one given, read by `target_lexicon`, or else
/// the target of the machine this is built on.
pub fn determine_target(config_target: Option<String>) -> (r: Result<Target, ConfigError>)
    ensures
        match (config_target, r) {
            (Some(v), Ok(t)) => triple_parse_error(v@) is None && t.triple() == parsed_triple(v@),
            (Some(v), Err(ConfigError::TargetParseError(e))) => triple_parse_error(v@) == Some(
                target_err_view(e),
            ),
            (None, Ok(_)) => true,
            _ => false,
        },
{
    match config_target {
        Some(value) => match Target::from_str(value.as_str()) {
            Ok(t) => Ok(t),
            Err(e) => Err(ConfigError::TargetParseError(e)),
        },
        None => Ok(Target::host()),
    }
}

} // verus!

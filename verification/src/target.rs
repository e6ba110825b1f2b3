//! The target a project is built for: a target triple, read from text or
//! taken from the machine that builds.
use vstd::prelude::*;

use target_lexicon::ParseError as TripleParseError;
use target_lexicon::Triple;

verus! {

/// A target triple of `target_lexicon`, carried as it is.
#[verifier::external_type_specification]
#[verifier::external_body]
pub struct ExTriple(Triple);

/// A parse error of `target_lexicon`, carried as it is.
#[verifier::external_type_specification]
#[verifier::external_body]
pub struct ExTripleParseError(TripleParseError);

/// The target a project is built for.
#[derive(Debug)]
pub struct Target {
    value: Triple,
}

/// Why a target triple cannot be read, with the part of the text that was
/// not recognised.
#[derive(Debug)]
pub enum TargetParseError {
    UnrecognizedArchitecture(String),
    UnrecognizedVendor(String),
    UnrecognizedOperatingSystem(String),
    UnrecognizedEnvironment(String),
    UnrecognizedBinaryFormat(String),
    UnrecognizedField(String),
}

/// A target parse error as a mathematical value.
pub enum SpecTargetParseError {
    UnrecognizedArchitecture(Seq<char>),
    UnrecognizedVendor(Seq<char>),
    UnrecognizedOperatingSystem(Seq<char>),
    UnrecognizedEnvironment(Seq<char>),
    UnrecognizedBinaryFormat(Seq<char>),
    UnrecognizedField(Seq<char>),
}

/// The view of a target parse error.
pub open spec fn target_err_view(e: TargetParseError) -> SpecTargetParseError {
    match e {
        TargetParseError::UnrecognizedArchitecture(m) => SpecTargetParseError::UnrecognizedArchitecture(m@),
        TargetParseError::UnrecognizedVendor(m) => SpecTargetParseError::UnrecognizedVendor(m@),
        TargetParseError::UnrecognizedOperatingSystem(m) => SpecTargetParseError::UnrecognizedOperatingSystem(m@),
        TargetParseError::UnrecognizedEnvironment(m) => SpecTargetParseError::UnrecognizedEnvironment(m@),
        TargetParseError::UnrecognizedBinaryFormat(m) => SpecTargetParseError::UnrecognizedBinaryFormat(m@),
        TargetParseError::UnrecognizedField(m) => SpecTargetParseError::UnrecognizedField(m@),
    }
}

/// Whether, and how, `target_lexicon` fails to read the text `s` as a
/// target triple: nothing where it reads it, else its error.
pub uninterp spec fn triple_parse_error(s: Seq<char>) -> Option<SpecTargetParseError>;

/// The triple `target_lexicon` reads from the text `s`, where it reads one.
pub uninterp spec fn parsed_triple(s: Seq<char>) -> Triple;

/// The text `target_lexicon` writes for a triple.
pub uninterp spec fn triple_display(t: Triple) -> Seq<char>;

/// Reads `s` with `Triple::from_str` of `target_lexicon`, its error turned
/// into the matching `TargetParseError`. Claims only that the outcome is a
/// function of the text (`triple_parse_error`, `parsed_triple`); which
/// texts it reads, and as what, is `target_lexicon`'s own table and is not
/// stated.
#[verifier::external_body]
fn parse_triple(s: &str) -> (r: Result<Triple, TargetParseError>)
    ensures
        match r {
            Ok(t) => triple_parse_error(s@) is None && t == parsed_triple(s@),
            Err(e) => triple_parse_error(s@) == Some(target_err_view(e)),
        },
{
    match s.parse::<Triple>() {
        Ok(t) => Ok(t),
        Err(TripleParseError::UnrecognizedArchitecture(m)) => Err(TargetParseError::UnrecognizedArchitecture(m)),
        Err(TripleParseError::UnrecognizedVendor(m)) => Err(TargetParseError::UnrecognizedVendor(m)),
        Err(TripleParseError::UnrecognizedOperatingSystem(m)) => Err(TargetParseError::UnrecognizedOperatingSystem(m)),
        Err(TripleParseError::UnrecognizedEnvironment(m)) => Err(TargetParseError::UnrecognizedEnvironment(m)),
        Err(TripleParseError::UnrecognizedBinaryFormat(m)) => Err(TargetParseError::UnrecognizedBinaryFormat(m)),
        Err(TripleParseError::UnrecognizedField(m)) => Err(TargetParseError::UnrecognizedField(m)),
    }
}

/// The triple of the machine this is built on, `HOST` of `target_lexicon`.
/// Nothing is claimed of it: it depends on the machine.
#[verifier::external_body]
fn host_triple() -> Triple {
    target_lexicon::HOST
}

/// The text `target_lexicon`'s `Display` writes for a triple: a function of
/// the triple (`triple_display`), not stated further.
#[verifier::external_body]
fn triple_text(t: &Triple) -> (s: String)
    ensures
        s@ == triple_display(*t),
{
    format!("{}", t)
}

impl Target {
    /// The triple of the target.
    pub closed spec fn triple(&self) -> Triple {
        self.value
    }

    /// The target a triple names.
    pub fn from(value: Triple) -> (t: Target)
        ensures
            t.triple() == value,
    {
        Target { value }
    }

    /// The target the text `s` names; an error where `target_lexicon`
    /// cannot read it.
    pub fn from_str(s: &str) -> (r: Result<Target, TargetParseError>)
        ensures
            match r {
                Ok(t) => triple_parse_error(s@) is None && t.triple() == parsed_triple(s@),
                Err(e) => triple_parse_error(s@) == Some(target_err_view(e)),
            },
    {
        match parse_triple(s) {
            Ok(triple) => Ok(Target { value: triple }),
            Err(e) => Err(e),
        }
    }

    /// The target of the machine this is built on.
    pub fn host() -> (t: Target) {
        Target { value: host_triple() }
    }

    /// The text of the target triple.
    pub fn to_string(&self) -> (s: String)
        ensures
            s@ == triple_display(self.triple()),
    {
        triple_text(&self.value)
    }
}

} // verus!

//! Source positions of tokens and syntax nodes.
use vstd::prelude::*;

verus! {

/// A point in a source file: a line (counted from 1) and a column.
#[derive(Clone, Copy, Debug, PartialEq, Eq)]
pub struct SpanPoint {
    pub line: usize,
    pub column: usize,
}

/// A range of a source file, from one point to another.
#[derive(Clone, Copy, Debug, PartialEq, Eq)]
pub struct Span {
    pub from: SpanPoint,
    pub to: SpanPoint,
}

/// The span that starts at the start of `a` and ends at the end of `b`.
pub open spec fn spec_join(a: Span, b: Span) -> Span {
    Span { from: a.from, to: b.to }
}

/// The span that starts at the start of `a` if there is one, else at the
/// start of `b`, and ends at the end of `b`.
pub open spec fn spec_join_opt(a: Option<Span>, b: Span) -> Span {
    match a {
        Some(a) => Span { from: a.from, to: b.to },
        None => Span { from: b.from, to: b.to },
    }
}

/// The span that starts and ends at `p`.
pub open spec fn spec_point_span(p: SpanPoint) -> Span {
    Span { from: p, to: p }
}

impl SpanPoint {
    /// The point at `line` and `column`.
    pub fn at(line: usize, column: usize) -> (p: SpanPoint)
        ensures
            p.line == line,
            p.column == column,
    {
        SpanPoint { line, column }
    }
}

impl Span {
    /// The span from `from` to `to`.
    pub fn between(from: SpanPoint, to: SpanPoint) -> (s: Span)
        ensures
            s.from == from,
            s.to == to,
    {
        Span { from, to }
    }

    /// The span that starts and ends at `p`.
    pub fn point(p: SpanPoint) -> (s: Span)
        ensures
            s == spec_point_span(p),
    {
        Span { from: p, to: p }
    }

    /// The span that starts and ends at `line` and `column`.
    pub fn at(line: usize, column: usize) -> (s: Span)
        ensures
            s.from == (SpanPoint { line, column }),
            s.to == (SpanPoint { line, column }),
    {
        Span { from: SpanPoint { line, column }, to: SpanPoint { line, column } }
    }

    /// The span from the start of `a` to the end of `b`.
    pub fn join(a: Span, b: Span) -> (s: Span)
        ensures
            s == spec_join(a, b),
    {
        Span { from: a.from, to: b.to }
    }

    /// The span from the start of `a` (or of `b` when `a` is absent) to the
    /// end of `b`.
    pub fn join_opt(a: Option<Span>, b: Span) -> (s: Span)
        ensures
            s == spec_join_opt(a, b),
    {
        match a {
            Some(a) => Span { from: a.from, to: b.to },
            None => Span { from: b.from, to: b.to },
        }
    }
}

impl From<(usize, usize)> for SpanPoint {
    fn from(value: (usize, usize)) -> (p: SpanPoint) {
        SpanPoint { line: value.0, column: value.1 }
    }
}

impl vstd::std_specs::convert::FromSpecImpl<(usize, usize)> for SpanPoint {
    open spec fn obeys_from_spec() -> bool {
        true
    }

    open spec fn from_spec(value: (usize, usize)) -> SpanPoint {
        SpanPoint { line: value.0, column: value.1 }
    }
}

impl From<SpanPoint> for Span {
    fn from(value: SpanPoint) -> (s: Span) {
        Span { from: value, to: value }
    }
}

impl vstd::std_specs::convert::FromSpecImpl<SpanPoint> for Span {
    open spec fn obeys_from_spec() -> bool {
        true
    }

    open spec fn from_spec(value: SpanPoint) -> Span {
        Span { from: value, to: value }
    }
}

impl From<(Span, Span)> for Span {
    fn from(values: (Span, Span)) -> (s: Span) {
        Span { from: values.0.from, to: values.1.to }
    }
}

impl vstd::std_specs::convert::FromSpecImpl<(Span, Span)> for Span {
    open spec fn obeys_from_spec() -> bool {
        true
    }

    open spec fn from_spec(values: (Span, Span)) -> Span {
        spec_join(values.0, values.1)
    }
}

impl From<(Option<Span>, Span)> for Span {
    fn from(values: (Option<Span>, Span)) -> (s: Span) {
        Span::join_opt(values.0, values.1)
    }
}

impl vstd::std_specs::convert::FromSpecImpl<(Option<Span>, Span)> for Span {
    open spec fn obeys_from_spec() -> bool {
        true
    }

    open spec fn from_spec(values: (Option<Span>, Span)) -> Span {
        spec_join_opt(values.0, values.1)
    }
}

impl From<(usize, usize)> for Span {
    fn from(value: (usize, usize)) -> (s: Span) {
        Span::at(value.0, value.1)
    }
}

impl vstd::std_specs::convert::FromSpecImpl<(usize, usize)> for Span {
    open spec fn obeys_from_spec() -> bool {
        true
    }

    open spec fn from_spec(value: (usize, usize)) -> Span {
        spec_point_span(SpanPoint { line: value.0, column: value.1 })
    }
}

impl From<(SpanPoint, SpanPoint)> for Span {
    fn from(values: (SpanPoint, SpanPoint)) -> (s: Span) {
        Span::between(values.0, values.1)
    }
}

impl vstd::std_specs::convert::FromSpecImpl<(SpanPoint, SpanPoint)> for Span {
    open spec fn obeys_from_spec() -> bool {
        true
    }

    open spec fn from_spec(values: (SpanPoint, SpanPoint)) -> Span {
        Span { from: values.0, to: values.1 }
    }
}

/// Joining spans is associative: the span from the start of the first to
/// the end of the last, however grouped.
pub proof fn lemma_join_assoc(a: Span, b: Span, c: Span)
    ensures
        spec_join(a, spec_join(b, c)) == spec_join(spec_join(a, b), c),
{
}

/// Joining a span with itself gives the span.
pub proof fn lemma_join_idem(a: Span)
    ensures
        spec_join(a, a) == a,
{
}

} // verus!

use oxidize::punctuated::Punctuated;
use oxidize::span::{Span, SpanPoint};

fn sample() -> Punctuated<u32, char> {
    let mut p = Punctuated::new();
    p.push(None, 1);
    p.push(Some(','), 2);
    p.push(Some(';'), 3);
    p.push_trailing('.');
    p
}

#[test]
fn push_appends_values_in_order() {
    let p = sample();
    assert_eq!(p.len(), 3);
    assert!(!p.is_empty());
    assert_eq!(p.take_values(), vec![1, 2, 3]);
}

#[test]
fn take_as_vec_pairs_each_value_with_the_delimiter_after_it() {
    let pairs = sample().take_as_vec();
    assert_eq!(pairs, vec![(1, Some(',')), (2, Some(';')), (3, Some('.'))]);
    let firsts: Vec<u32> = pairs.iter().map(|p| p.0).collect();
    assert_eq!(firsts, sample().take_values());
}

#[test]
fn take_splits_into_first_rest_and_trailing() {
    let (first, rest, trailing) = sample().take().unwrap();
    assert_eq!(first, 1);
    assert_eq!(rest, vec![(',', 2), (';', 3)]);
    assert_eq!(trailing, Some('.'));
    let empty: Punctuated<u32, char> = Punctuated::new();
    assert!(empty.is_empty());
    assert_eq!(empty.len(), 0);
    assert!(empty.take().is_none());
}

#[test]
fn a_single_value_has_no_delimiter_after_it() {
    let mut p: Punctuated<u32, char> = Punctuated::new();
    p.push_first(7);
    assert_eq!(p.take_as_vec(), vec![(7, None)]);
}

#[test]
fn joining_spans_is_associative() {
    let a = Span::at(1, 1);
    let b = Span::between(SpanPoint::at(2, 3), SpanPoint::at(2, 9));
    let c = Span::at(4, 2);
    let left = Span::join(Span::join(a, b), c);
    let right = Span::join(a, Span::join(b, c));
    assert_eq!(left, right);
    assert_eq!(left, Span::between(SpanPoint::at(1, 1), SpanPoint::at(4, 2)));
    assert_eq!(Span::join(b, b), b);
}

#[test]
fn spans_from_points_and_pairs() {
    let p = SpanPoint::from((3, 4));
    assert_eq!(p, SpanPoint::at(3, 4));
    assert_eq!(Span::from(p), Span::at(3, 4));
    let s = Span::from((Span::at(1, 2), Span::at(5, 6)));
    assert_eq!(s, Span::between(SpanPoint::at(1, 2), SpanPoint::at(5, 6)));
    assert_eq!(Span::join_opt(None, Span::at(2, 2)), Span::at(2, 2));
    assert_eq!(Span::join_opt(Some(Span::at(1, 1)), Span::at(2, 2)), Span::between(SpanPoint::at(1, 1), SpanPoint::at(2, 2)));
}

#[test]
fn spans_from_optional_pairs_points_and_numbers() {
    let a = Span::between(SpanPoint::at(1, 2), SpanPoint::at(1, 4));
    let b = Span::between(SpanPoint::at(2, 1), SpanPoint::at(2, 3));
    let j = Span::from((Some(a), b));
    assert_eq!((j.from, j.to), (a.from, b.to));
    let n = Span::from((None, b));
    assert_eq!((n.from, n.to), (b.from, b.to));
    let p = Span::from((3usize, 7usize));
    assert_eq!((p.from, p.to), (SpanPoint::at(3, 7), SpanPoint::at(3, 7)));
    let q = Span::from((SpanPoint::at(1, 1), SpanPoint::at(4, 2)));
    assert_eq!((q.from, q.to), (SpanPoint::at(1, 1), SpanPoint::at(4, 2)));
}

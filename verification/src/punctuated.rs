//! A sequence of values separated by delimiters, possibly with a trailing
//! delimiter, as it is written in source text (`a, b, c,`).
use vstd::prelude::*;

verus! {

/// Values of type `T` separated by delimiters of type `D`.
#[derive(Debug, Clone)]
pub enum Punctuated<T, D> {
    Empty,
    NonEmpty { first: T, rest: Vec<(D, T)>, trailing: Option<D> },
}

/// The values of a sequence of (delimiter, value) pairs, in order.
pub open spec fn pair_values<T, D>(rest: Seq<(D, T)>) -> Seq<T> {
    Seq::new(rest.len(), |i: int| rest[i].1)
}

impl<T, D> Punctuated<T, D> {
    /// The values, in order.
    pub open spec fn values(self) -> Seq<T> {
        match self {
            Punctuated::Empty => Seq::empty(),
            Punctuated::NonEmpty { first, rest, trailing } => seq![first] + pair_values(rest@),
        }
    }

    /// The delimiter that follows the `i`-th value, if any: the delimiter
    /// before the next value, or the trailing delimiter after the last one.
    pub open spec fn delim_after(self, i: int) -> Option<D> {
        match self {
            Punctuated::Empty => None,
            Punctuated::NonEmpty { first, rest, trailing } => if i < rest@.len() {
                Some(rest@[i].0)
            } else {
                trailing
            },
        }
    }

    /// The values, each paired with the delimiter that follows it.
    pub open spec fn spec_as_pairs(self) -> Seq<(T, Option<D>)> {
        Seq::new(self.values().len(), |i: int| (self.values()[i], self.delim_after(i)))
    }

    /// The trailing delimiter, if any.
    pub open spec fn spec_trailing(self) -> Option<D> {
        match self {
            Punctuated::Empty => None,
            Punctuated::NonEmpty { trailing, .. } => trailing,
        }
    }

    /// An empty sequence.
    pub fn new() -> (p: Self)
        ensures
            p is Empty,
            p.values() == Seq::<T>::empty(),
    {
        Punctuated::Empty
    }

    /// Starts an empty sequence with its first value.
    pub fn push_first(&mut self, value: T)
        requires
            *old(self) is Empty,
        ensures
            *final(self) is NonEmpty,
            (*final(self))->first == value,
            (*final(self))->rest@.len() == 0,
            final(self).values() == seq![value],
            final(self).spec_trailing() is None,
    {
        *self = Punctuated::NonEmpty { first: value, rest: Vec::new(), trailing: None };
        assert(pair_values(Seq::<(D, T)>::empty()) =~= Seq::<T>::empty());
    }

    /// Appends a delimiter and a value to a sequence that has a first value.
    pub fn push_delim(&mut self, delim: D, value: T)
        requires
            *old(self) is NonEmpty,
        ensures
            final(self).values() == old(self).values().push(value),
            final(self).spec_trailing() == old(self).spec_trailing(),
            *final(self) is NonEmpty,
            (*final(self))->first == (*old(self))->first,
            (*final(self))->rest@ == (*old(self))->rest@.push((delim, value)),
    {
        match self {
            Punctuated::NonEmpty { rest, .. } => {
                rest.push((delim, value));
            },
            Punctuated::Empty => {},
        }
        assert(final(self).values() =~= old(self).values().push(value));
    }

    /// Sets the trailing delimiter of a sequence that has a first value.
    pub fn push_trailing(&mut self, delim: D)
        requires
            *old(self) is NonEmpty,
        ensures
            final(self).values() == old(self).values(),
            final(self).spec_trailing() == Some(delim),
            *final(self) is NonEmpty,
            (*final(self))->first == (*old(self))->first,
            (*final(self))->rest@ == (*old(self))->rest@,
    {
        match self {
            Punctuated::NonEmpty { trailing, .. } => {
                *trailing = Some(delim);
            },
            Punctuated::Empty => {},
        }
    }

    /// Appends a value: as the first value when no delimiter is given,
    /// else after the given delimiter.
    pub fn push(&mut self, delim: Option<D>, value: T)
        requires
            delim is None <==> *old(self) is Empty,
        ensures
            final(self).values() == old(self).values().push(value),
            *final(self) is NonEmpty,
            delim is None ==> final(self).spec_trailing() is None,
            delim is Some ==> final(self).spec_trailing() == old(self).spec_trailing(),
            delim is Some ==> (*final(self))->rest@ == (*old(self))->rest@.push((delim->0, value)),
            delim is None ==> (*final(self))->rest@.len() == 0,
            delim is None ==> (*final(self))->first == value,
            delim is None ==> (*final(self))->trailing is None,
            delim is Some ==> (*final(self))->first == (*old(self))->first,
            delim is Some ==> (*final(self))->trailing == (*old(self))->trailing,
    {
        match delim {
            None => {
                self.push_first(value);
                assert(old(self).values() =~= Seq::<T>::empty());
            },
            Some(delim) => self.push_delim(delim, value),
        }
    }

    /// The number of values.
    pub fn len(&self) -> (n: usize)
        requires
            self is NonEmpty ==> self->rest@.len() < usize::MAX,
        ensures
            n == self.values().len(),
    {
        match self {
            Punctuated::Empty => 0,
            Punctuated::NonEmpty { rest, .. } => 1 + rest.len(),
        }
    }

    /// Whether there are no values.
    pub fn is_empty(&self) -> (b: bool)
        ensures
            b == (self.values().len() == 0),
            b == (self is Empty),
    {
        match self {
            Punctuated::Empty => true,
            Punctuated::NonEmpty { .. } => false,
        }
    }

    /// The first value, the (delimiter, value) pairs after it, and the
    /// trailing delimiter; `None` for an empty sequence.
    pub fn take(self) -> (r: Option<(T, Vec<(D, T)>, Option<D>)>)
        ensures
            self is Empty <==> r is None,
            r matches Some((first, rest, trailing)) ==> self == (Punctuated::NonEmpty {
                first,
                rest,
                trailing,
            }),
    {
        match self {
            Punctuated::Empty => None,
            Punctuated::NonEmpty { first, rest, trailing } => Some((first, rest, trailing)),
        }
    }

    /// The values, each paired with the delimiter that follows it (the last
    /// one with the trailing delimiter).
    pub fn take_as_vec(self) -> (r: Vec<(T, Option<D>)>)
        ensures
            r@ == self.spec_as_pairs(),
    {
        let ghost whole = self;
        match self {
            Punctuated::Empty => {
                let r: Vec<(T, Option<D>)> = Vec::new();
                assert(r@ =~= whole.spec_as_pairs());
                r
            },
            Punctuated::NonEmpty { first, rest, trailing } => {
                let mut values: Vec<(T, Option<D>)> = Vec::new();
                let ghost rest_seq = rest@;
                let mut pending: T = first;
                for item in it: rest
                    invariant
                        it.seq() == rest_seq,
                        whole == (Punctuated::NonEmpty { first, rest, trailing }),
                        rest@ == rest_seq,
                        values@.len() == it.index(),
                        pending == whole.values()[it.index() as int],
                        forall|j: int|
                            0 <= j < it.index() ==> #[trigger] values@[j]
                                == whole.spec_as_pairs()[j],
                {
                    let (delim, value) = item;
                    values.push((pending, Some(delim)));
                    pending = value;
                }
                values.push((pending, trailing));
                assert(values@ =~= whole.spec_as_pairs());
                values
            },
        }
    }

    /// The values, in order, without the delimiters.
    pub fn take_values(self) -> (r: Vec<T>)
        ensures
            r@ == self.values(),
    {
        let ghost whole = self;
        match self {
            Punctuated::Empty => {
                let r: Vec<T> = Vec::new();
                assert(r@ =~= whole.values());
                r
            },
            Punctuated::NonEmpty { first, rest, trailing } => {
                let mut values: Vec<T> = Vec::new();
                values.push(first);
                let ghost rest_seq = rest@;
                for item in it: rest
                    invariant
                        it.seq() == rest_seq,
                        whole == (Punctuated::NonEmpty { first, rest, trailing }),
                        rest@ == rest_seq,
                        values@ =~= whole.values().take(it.index() + 1),
                {
                    let (_, value) = item;
                    values.push(value);
                }
                assert(values@ =~= whole.values());
                values
            },
        }
    }
}

/// Taking the values alone gives the first components of taking them
/// with their delimiters: `take_values` and `take_as_vec` agree.
pub proof fn lemma_pairs_values<T, D>(p: Punctuated<T, D>)
    ensures
        p.spec_as_pairs().map_values(|x: (T, Option<D>)| x.0) == p.values(),
        p.spec_as_pairs().len() == p.values().len(),
{
    assert(p.spec_as_pairs().map_values(|x: (T, Option<D>)| x.0) =~= p.values());
}

/// Every value but the last is followed by a delimiter; the last by the
/// trailing delimiter, if any.
pub proof fn lemma_pairs_delims<T, D>(p: Punctuated<T, D>)
    ensures
        forall|i: int| 0 <= i < p.values().len() - 1 ==> (#[trigger] p.spec_as_pairs()[i]).1 is Some,
        p.values().len() > 0 ==> p.spec_as_pairs()[p.values().len() - 1].1 == p.spec_trailing(),
{
}

} // verus!

//! Equality of errors and of recoveries: the same case, equal payloads in
//! every place, the same expected names, and the same discarded tokens in
//! the same order.

use vstd::prelude::*;
use vstd::std_specs::cmp::{PartialEqSpec, PartialEqSpecImpl};
use crate::error::{names, ParseError};
use crate::model::spans_related;
use crate::recovery::{all_spans_related, ErrorRecovery};

verus! {

/// Whether two lists hold the same names in the same order.
pub fn same_names(a: &Vec<String>, b: &Vec<String>) -> (same: bool)
    ensures
        same == (names(a@) == names(b@)),
{
    if a.len() != b.len() {
        return false;
    }
    let mut i: usize = 0;
    while i < a.len()
        invariant
            a@.len() == b@.len(),
            i <= a@.len(),
            forall|k: int| 0 <= k < i ==> a@[k]@ == b@[k]@,
        decreases a@.len() - i,
    {
        if a[i] != b[i] {
            assert(names(a@)[i as int] != names(b@)[i as int]);
            return false;
        }
        i += 1;
    }
    assert(names(a@) =~= names(b@));
    true
}

/// Whether two spans are equal end by end, by the `==` of locations and of
/// tokens.
fn same_span<L: PartialEq, T: PartialEq>(a: &(L, T, L), b: &(L, T, L)) -> (same: bool)
    ensures
        L::obeys_eq_spec() && T::obeys_eq_spec() ==> same == spans_related(
            *a,
            *b,
            |x: L, y: L| x.eq_spec(&y),
            |x: T, y: T| x.eq_spec(&y),
        ),
{
    a.0 == b.0 && a.1 == b.1 && a.2 == b.2
}

/// Whether two lists of spans have the same length and are equal place by
/// place.
fn same_spans<L: PartialEq, T: PartialEq>(a: &Vec<(L, T, L)>, b: &Vec<(L, T, L)>) -> (same: bool)
    ensures
        L::obeys_eq_spec() && T::obeys_eq_spec() ==> same == all_spans_related(
            a@,
            b@,
            |x: L, y: L| x.eq_spec(&y),
            |x: T, y: T| x.eq_spec(&y),
        ),
{
    if a.len() != b.len() {
        return false;
    }
    let mut i: usize = 0;
    while i < a.len()
        invariant
            a@.len() == b@.len(),
            i <= a@.len(),
            L::obeys_eq_spec() && T::obeys_eq_spec() ==> forall|k: int|
                0 <= k < i ==> spans_related(
                    #[trigger] a@[k],
                    b@[k],
                    |x: L, y: L| x.eq_spec(&y),
                    |x: T, y: T| x.eq_spec(&y),
                ),
        decreases a@.len() - i,
    {
        if !same_span(&a[i], &b[i]) {
            return false;
        }
        i += 1;
    }
    true
}

impl<L: PartialEq, T: PartialEq, E: PartialEq> PartialEq for ParseError<L, T, E> {
    fn eq(&self, other: &Self) -> (equal: bool) {
        match (self, other) {
            (
                ParseError::InvalidToken { location: a },
                ParseError::InvalidToken { location: b },
            ) => *a == *b,
            (
                ParseError::UnrecognizedEOF { location: a, expected: x },
                ParseError::UnrecognizedEOF { location: b, expected: y },
            ) => *a == *b && same_names(x, y),
            (
                ParseError::UnrecognizedToken { token: a, expected: x },
                ParseError::UnrecognizedToken { token: b, expected: y },
            ) => same_span(a, b) && same_names(x, y),
            (ParseError::ExtraToken { token: a }, ParseError::ExtraToken { token: b }) => {
                same_span(a, b)
            },
            (ParseError::User { error: a }, ParseError::User { error: b }) => *a == *b,
            _ => false,
        }
    }
}

impl<L: PartialEq, T: PartialEq, E: PartialEq> PartialEqSpecImpl for ParseError<L, T, E> {
    open spec fn obeys_eq_spec() -> bool {
        L::obeys_eq_spec() && T::obeys_eq_spec() && E::obeys_eq_spec()
    }

    open spec fn eq_spec(&self, other: &Self) -> bool {
        self@.related(
            other@,
            |x: L, y: L| x.eq_spec(&y),
            |x: T, y: T| x.eq_spec(&y),
            |x: E, y: E| x.eq_spec(&y),
        )
    }
}

impl<L: PartialEq, T: PartialEq, E: PartialEq> PartialEq for ErrorRecovery<L, T, E> {
    fn eq(&self, other: &Self) -> (equal: bool) {
        self.error == other.error && same_spans(&self.dropped_tokens, &other.dropped_tokens)
    }
}

impl<L: PartialEq, T: PartialEq, E: PartialEq> PartialEqSpecImpl for ErrorRecovery<L, T, E> {
    open spec fn obeys_eq_spec() -> bool {
        L::obeys_eq_spec() && T::obeys_eq_spec() && E::obeys_eq_spec()
    }

    open spec fn eq_spec(&self, other: &Self) -> bool {
        self@.related(
            other@,
            |x: L, y: L| x.eq_spec(&y),
            |x: T, y: T| x.eq_spec(&y),
            |x: E, y: E| x.eq_spec(&y),
        )
    }
}

} // verus!

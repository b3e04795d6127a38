//! Copies of errors and of recoveries.

use vstd::prelude::*;
use crate::error::{names, ParseError};
use crate::recovery::{all_spans_related, ErrorRecovery};

verus! {

/// A copy of a span, made end by end.
fn clone_span<L: Clone, T: Clone>(span: &(L, T, L)) -> (copy: (L, T, L))
    ensures
        cloned(span.0, copy.0),
        cloned(span.1, copy.1),
        cloned(span.2, copy.2),
{
    (span.0.clone(), span.1.clone(), span.2.clone())
}

/// A copy of a list of names, name for name.
pub fn copy_names(expected: &Vec<String>) -> (copy: Vec<String>)
    ensures
        names(copy@) == names(expected@),
{
    let copy = expected.clone();
    assert(names(copy@) =~= names(expected@));
    copy
}

impl<L: Clone, T: Clone, E: Clone> Clone for ParseError<L, T, E> {
    /// A copy of the same case, with the same expected names and with each
    /// payload a clone of the payload in the same place.
    fn clone(&self) -> (copy: Self)
        ensures
            self@.related(
                copy@,
                |a: L, b: L| cloned(a, b),
                |a: T, b: T| cloned(a, b),
                |a: E, b: E| cloned(a, b),
            ),
    {
        match self {
            ParseError::InvalidToken { location } => ParseError::InvalidToken {
                location: location.clone(),
            },
            ParseError::UnrecognizedEOF { location, expected } => ParseError::UnrecognizedEOF {
                location: location.clone(),
                expected: copy_names(expected),
            },
            ParseError::UnrecognizedToken { token, expected } => ParseError::UnrecognizedToken {
                token: clone_span(token),
                expected: copy_names(expected),
            },
            ParseError::ExtraToken { token } => ParseError::ExtraToken { token: clone_span(token) },
            ParseError::User { error } => ParseError::User { error: error.clone() },
        }
    }
}

impl<L: Clone, T: Clone, E: Clone> Clone for ErrorRecovery<L, T, E> {
    /// A copy with a clone of the error and with as many discarded tokens,
    /// in the same order, each a clone of the one in the same place.
    fn clone(&self) -> (copy: Self)
        ensures
            self@.related(
                copy@,
                |a: L, b: L| cloned(a, b),
                |a: T, b: T| cloned(a, b),
                |a: E, b: E| cloned(a, b),
            ),
            copy@.dropped_tokens.len() == self@.dropped_tokens.len(),
    {
        let error = self.error.clone();
        let mut dropped_tokens: Vec<(L, T, L)> = Vec::new();
        let mut i: usize = 0;
        while i < self.dropped_tokens.len()
            invariant
                i <= self.dropped_tokens@.len(),
                all_spans_related(
                    self.dropped_tokens@.take(i as int),
                    dropped_tokens@,
                    |a: L, b: L| cloned(a, b),
                    |a: T, b: T| cloned(a, b),
                ),
            decreases self.dropped_tokens@.len() - i,
        {
            let span = clone_span(&self.dropped_tokens[i]);
            dropped_tokens.push(span);
            i += 1;
        }
        assert(self.dropped_tokens@.take(i as int) =~= self.dropped_tokens@);
        ErrorRecovery { error, dropped_tokens }
    }
}

} // verus!

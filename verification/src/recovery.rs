//! The envelope that pairs a reported error with the tokens that were
//! discarded while the parser recovered from it.

use vstd::prelude::*;
use crate::error::ParseError;
use crate::model::{spans_related, ErrorView};

verus! {

/// What a recovery is: the error, and the discarded tokens with their spans
/// in the order in which they were taken from the input.
pub struct RecoveryView<L, T, E> {
    pub error: ErrorView<L, T, E>,
    pub dropped_tokens: Seq<(L, T, L)>,
}

/// Whether two sequences of spans have the same length and agree place by
/// place, under a relation on locations and a relation on tokens.
pub open spec fn all_spans_related<L, T, LL, TT>(
    a: Seq<(L, T, L)>,
    b: Seq<(LL, TT, LL)>,
    loc: spec_fn(L, LL) -> bool,
    tok: spec_fn(T, TT) -> bool,
) -> bool {
    &&& a.len() == b.len()
    &&& forall|i: int| 0 <= i < a.len() ==> spans_related(#[trigger] a[i], b[i], loc, tok)
}

impl<L, T, E> RecoveryView<L, T, E> {
    /// Whether `other` holds an error related to this one and as many
    /// discarded tokens, each related to the one in the same place.
    pub open spec fn related<LL, TT, EE>(
        self,
        other: RecoveryView<LL, TT, EE>,
        loc: spec_fn(L, LL) -> bool,
        tok: spec_fn(T, TT) -> bool,
        err: spec_fn(E, EE) -> bool,
    ) -> bool {
        &&& self.error.related(other.error, loc, tok, err)
        &&& all_spans_related(self.dropped_tokens, other.dropped_tokens, loc, tok)
    }
}

/// An error from which the parser recovered, with the tokens that it
/// discarded to do so, in the order in which it discarded them.
#[derive(Debug, Eq, Ord)]
pub struct ErrorRecovery<L, T, E> {
    pub error: ParseError<L, T, E>,
    pub dropped_tokens: Vec<(L, T, L)>,
}

impl<L, T, E> View for ErrorRecovery<L, T, E> {
    type V = RecoveryView<L, T, E>;

    open spec fn view(&self) -> RecoveryView<L, T, E> {
        RecoveryView { error: self.error@, dropped_tokens: self.dropped_tokens@ }
    }
}

} // verus!

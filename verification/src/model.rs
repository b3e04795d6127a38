//! The mathematical model of a parse error and of the maps over its three
//! type parameters.

use vstd::prelude::*;

verus! {

/// What a parse error is: one of five cases, each with its payloads. The
/// names of the expected tokens are held as sequences of characters, in the
/// order in which the grammar declares them.
pub enum ErrorView<L, T, E> {
    InvalidToken { location: L },
    UnrecognizedEOF { location: L, expected: Seq<Seq<char>> },
    UnrecognizedToken { token: (L, T, L), expected: Seq<Seq<char>> },
    ExtraToken { token: (L, T, L) },
    User { error: E },
}

/// Which of the five cases an error is.
pub enum Kind {
    InvalidToken,
    UnrecognizedEOF,
    UnrecognizedToken,
    ExtraToken,
    User,
}

/// Whether two spans agree, end by end, under a relation on locations and a
/// relation on tokens.
pub open spec fn spans_related<L, T, LL, TT>(
    a: (L, T, L),
    b: (LL, TT, LL),
    loc: spec_fn(L, LL) -> bool,
    tok: spec_fn(T, TT) -> bool,
) -> bool {
    loc(a.0, b.0) && tok(a.1, b.1) && loc(a.2, b.2)
}

impl<L, T, E> ErrorView<L, T, E> {
    /// The case of this error.
    pub open spec fn kind(self) -> Kind {
        match self {
            ErrorView::InvalidToken { .. } => Kind::InvalidToken,
            ErrorView::UnrecognizedEOF { .. } => Kind::UnrecognizedEOF,
            ErrorView::UnrecognizedToken { .. } => Kind::UnrecognizedToken,
            ErrorView::ExtraToken { .. } => Kind::ExtraToken,
            ErrorView::User { .. } => Kind::User,
        }
    }

    /// The expected names that this error carries; none for the cases that
    /// have no such list.
    pub open spec fn expected(self) -> Seq<Seq<char>> {
        match self {
            ErrorView::UnrecognizedEOF { expected, .. } => expected,
            ErrorView::UnrecognizedToken { expected, .. } => expected,
            _ => Seq::empty(),
        }
    }

    /// Whether every payload that this error carries satisfies the predicate
    /// for its type.
    pub open spec fn payloads_satisfy(
        self,
        loc: spec_fn(L) -> bool,
        tok: spec_fn(T) -> bool,
        err: spec_fn(E) -> bool,
    ) -> bool {
        match self {
            ErrorView::InvalidToken { location } => loc(location),
            ErrorView::UnrecognizedEOF { location, .. } => loc(location),
            ErrorView::UnrecognizedToken { token, .. } => {
                loc(token.0) && tok(token.1) && loc(token.2)
            },
            ErrorView::ExtraToken { token } => loc(token.0) && tok(token.1) && loc(token.2),
            ErrorView::User { error } => err(error),
        }
    }

    /// Whether `other` is the same case as this error, with the same expected
    /// names, and with each payload related to the payload in the same place.
    pub open spec fn related<LL, TT, EE>(
        self,
        other: ErrorView<LL, TT, EE>,
        loc: spec_fn(L, LL) -> bool,
        tok: spec_fn(T, TT) -> bool,
        err: spec_fn(E, EE) -> bool,
    ) -> bool {
        match (self, other) {
            (
                ErrorView::InvalidToken { location: a },
                ErrorView::InvalidToken { location: b },
            ) => loc(a, b),
            (
                ErrorView::UnrecognizedEOF { location: a, expected: x },
                ErrorView::UnrecognizedEOF { location: b, expected: y },
            ) => loc(a, b) && x == y,
            (
                ErrorView::UnrecognizedToken { token: a, expected: x },
                ErrorView::UnrecognizedToken { token: b, expected: y },
            ) => spans_related(a, b, loc, tok) && x == y,
            (ErrorView::ExtraToken { token: a }, ErrorView::ExtraToken { token: b }) => {
                spans_related(a, b, loc, tok)
            },
            (ErrorView::User { error: a }, ErrorView::User { error: b }) => err(a, b),
            _ => false,
        }
    }

    /// The error with every location replaced by its image under `loc`, every
    /// token by its image under `tok` and the user error by its image under
    /// `err`.
    pub open spec fn map_intern<LL, TT, EE>(
        self,
        loc: spec_fn(L) -> LL,
        tok: spec_fn(T) -> TT,
        err: spec_fn(E) -> EE,
    ) -> ErrorView<LL, TT, EE> {
        match self {
            ErrorView::InvalidToken { location } => ErrorView::InvalidToken {
                location: loc(location),
            },
            ErrorView::UnrecognizedEOF { location, expected } => ErrorView::UnrecognizedEOF {
                location: loc(location),
                expected,
            },
            ErrorView::UnrecognizedToken { token, expected } => ErrorView::UnrecognizedToken {
                token: (loc(token.0), tok(token.1), loc(token.2)),
                expected,
            },
            ErrorView::ExtraToken { token } => ErrorView::ExtraToken {
                token: (loc(token.0), tok(token.1), loc(token.2)),
            },
            ErrorView::User { error } => ErrorView::User { error: err(error) },
        }
    }

    /// The error with every location replaced by its image under `f`.
    pub open spec fn map_location<LL>(self, f: spec_fn(L) -> LL) -> ErrorView<LL, T, E> {
        self.map_intern(f, |t: T| t, |e: E| e)
    }

    /// The error with every token replaced by its image under `f`.
    pub open spec fn map_token<TT>(self, f: spec_fn(T) -> TT) -> ErrorView<L, TT, E> {
        self.map_intern(|l: L| l, f, |e: E| e)
    }

    /// The error with the user error replaced by its image under `f`.
    pub open spec fn map_error<EE>(self, f: spec_fn(E) -> EE) -> ErrorView<L, T, EE> {
        self.map_intern(|l: L| l, |t: T| t, f)
    }
}

} // verus!

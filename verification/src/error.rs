//! The error type that a parser hands to its caller, and the three maps that
//! change one of its type parameters.

use vstd::prelude::*;
use crate::model::ErrorView;

verus! {

/// The names of a list of expected tokens, as sequences of characters.
pub open spec fn names(expected: Seq<String>) -> Seq<Seq<char>> {
    expected.map_values(|s: String| s@)
}

/// Whether `op` computes `f`: whatever `op` may return for an argument is the
/// value of `f` there.
pub open spec fn computes<A, B, F: Fn(A) -> B>(op: F, f: spec_fn(A) -> B) -> bool {
    forall|a: A, b: B| #[trigger] call_ensures(op, (a,), b) ==> b == f(a)
}

/// A failure of a parse, over the grammar's location type `L`, token type `T`
/// and user-error type `E`. Copies are made as `duplicate` says, `==` is as
/// `equality` says and `<` as `ordering` says.
#[derive(Debug, Eq, Ord)]
pub enum ParseError<L, T, E> {
    /// A token was found that the lexer or parser could not classify.
    InvalidToken { location: L },
    /// The input ended where a token was required.
    UnrecognizedEOF {
        /// The end of the last token.
        location: L,
        /// The names of the tokens that would have been accepted, in the
        /// grammar's order.
        expected: Vec<String>,
    },
    /// A token was found that is not valid where it stands.
    UnrecognizedToken {
        /// The token with the locations of its start and its end.
        token: (L, T, L),
        /// The names of the tokens that would have been accepted, in the
        /// grammar's order.
        expected: Vec<String>,
    },
    /// A token was found after the parse was complete.
    ExtraToken { token: (L, T, L) },
    /// An error of the caller's own.
    User { error: E },
}

impl<L, T, E> View for ParseError<L, T, E> {
    type V = ErrorView<L, T, E>;

    open spec fn view(&self) -> ErrorView<L, T, E> {
        match *self {
            ParseError::InvalidToken { location } => ErrorView::InvalidToken { location },
            ParseError::UnrecognizedEOF { location, expected } => ErrorView::UnrecognizedEOF {
                location,
                expected: names(expected@),
            },
            ParseError::UnrecognizedToken { token, expected } => ErrorView::UnrecognizedToken {
                token,
                expected: names(expected@),
            },
            ParseError::ExtraToken { token } => ErrorView::ExtraToken { token },
            ParseError::User { error } => ErrorView::User { error },
        }
    }
}

impl<L, T, E> ParseError<L, T, E> {
    /// Applies `loc_op` to every location, `tok_op` to every token and
    /// `err_op` to the user error. The case and the expected names stay as
    /// they are. Of a span, the start is mapped first, then the token, then
    /// the end.
    pub fn map_intern<FL, LL, FT, TT, FE, EE>(
        self,
        loc_op: FL,
        tok_op: FT,
        err_op: FE,
    ) -> (mapped: ParseError<LL, TT, EE>) where
        FL: Fn(L) -> LL,
        FT: Fn(T) -> TT,
        FE: Fn(E) -> EE,

        requires
            self@.payloads_satisfy(
                |l: L| call_requires(loc_op, (l,)),
                |t: T| call_requires(tok_op, (t,)),
                |e: E| call_requires(err_op, (e,)),
            ),
        ensures
            self@.related(
                mapped@,
                |a: L, b: LL| call_ensures(loc_op, (a,), b),
                |a: T, b: TT| call_ensures(tok_op, (a,), b),
                |a: E, b: EE| call_ensures(err_op, (a,), b),
            ),
            mapped@.kind() == self@.kind(),
            mapped@.expected() == self@.expected(),
            forall|f: spec_fn(L) -> LL, g: spec_fn(T) -> TT, h: spec_fn(E) -> EE|
                computes(loc_op, f) && computes(tok_op, g) && computes(err_op, h) ==> mapped@
                    == #[trigger] self@.map_intern(f, g, h),
    {
        match self {
            ParseError::InvalidToken { location } => ParseError::InvalidToken {
                location: loc_op(location),
            },
            ParseError::UnrecognizedEOF { location, expected } => ParseError::UnrecognizedEOF {
                location: loc_op(location),
                expected,
            },
            ParseError::UnrecognizedToken { token, expected } => {
                let (s, t, e) = token;
                ParseError::UnrecognizedToken {
                    token: (loc_op(s), tok_op(t), loc_op(e)),
                    expected,
                }
            },
            ParseError::ExtraToken { token } => {
                let (s, t, e) = token;
                ParseError::ExtraToken { token: (loc_op(s), tok_op(t), loc_op(e)) }
            },
            ParseError::User { error } => ParseError::User { error: err_op(error) },
        }
    }

    /// Applies `op` to every location: to the one of `InvalidToken` and of
    /// `UnrecognizedEOF`, and to both ends of a span. Tokens, the user error,
    /// the expected names and the case stay as they are.
    pub fn map_location<F, LL>(self, op: F) -> (mapped: ParseError<LL, T, E>) where
        F: Fn(L) -> LL,

        requires
            self@.payloads_satisfy(|l: L| call_requires(op, (l,)), |t: T| true, |e: E| true),
        ensures
            self@.related(
                mapped@,
                |a: L, b: LL| call_ensures(op, (a,), b),
                |a: T, b: T| a == b,
                |a: E, b: E| a == b,
            ),
            mapped@.kind() == self@.kind(),
            mapped@.expected() == self@.expected(),
            forall|f: spec_fn(L) -> LL|
                computes(op, f) ==> mapped@ == #[trigger] self@.map_location(f),
    {
        let same_token = |x: T| -> (y: T)
            ensures
                y == x,
            { x };
        let same_error = |x: E| -> (y: E)
            ensures
                y == x,
            { x };
        self.map_intern(op, same_token, same_error)
    }

    /// Applies `op` to the token of a span. Locations, the user error, the
    /// expected names and the case stay as they are; an error that carries
    /// no token comes back unchanged.
    pub fn map_token<F, TT>(self, op: F) -> (mapped: ParseError<L, TT, E>) where
        F: Fn(T) -> TT,

        requires
            self@.payloads_satisfy(|l: L| true, |t: T| call_requires(op, (t,)), |e: E| true),
        ensures
            self@.related(
                mapped@,
                |a: L, b: L| a == b,
                |a: T, b: TT| call_ensures(op, (a,), b),
                |a: E, b: E| a == b,
            ),
            mapped@.kind() == self@.kind(),
            mapped@.expected() == self@.expected(),
            forall|g: spec_fn(T) -> TT|
                computes(op, g) ==> mapped@ == #[trigger] self@.map_token(g),
    {
        let same_location = |x: L| -> (y: L)
            ensures
                y == x,
            { x };
        let same_error = |x: E| -> (y: E)
            ensures
                y == x,
            { x };
        self.map_intern(same_location, op, same_error)
    }

    /// Applies `op` to the user error. Locations, tokens, the expected names
    /// and the case stay as they are; an error of another case comes back
    /// unchanged.
    pub fn map_error<F, EE>(self, op: F) -> (mapped: ParseError<L, T, EE>) where
        F: Fn(E) -> EE,

        requires
            self@.payloads_satisfy(|l: L| true, |t: T| true, |e: E| call_requires(op, (e,))),
        ensures
            self@.related(
                mapped@,
                |a: L, b: L| a == b,
                |a: T, b: T| a == b,
                |a: E, b: EE| call_ensures(op, (a,), b),
            ),
            mapped@.kind() == self@.kind(),
            mapped@.expected() == self@.expected(),
            forall|h: spec_fn(E) -> EE|
                computes(op, h) ==> mapped@ == #[trigger] self@.map_error(h),
    {
        let same_location = |x: L| -> (y: L)
            ensures
                y == x,
            { x };
        let same_token = |x: T| -> (y: T)
            ensures
                y == x,
            { x };
        self.map_intern(same_location, same_token, op)
    }
}

} // verus!

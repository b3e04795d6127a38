//! The order of errors and of recoveries: by case first, then by the
//! payloads in the order in which they are declared, a list by its first
//! difference and then by its length.

use core::cmp::Ordering;
use vstd::prelude::*;
use vstd::std_specs::cmp::{PartialOrdSpec, PartialOrdSpecImpl};
use vstd::string::*;
use vstd::utf8::encode_utf8;
use crate::error::{names, ParseError};
use crate::model::{ErrorView, Kind};
use crate::recovery::ErrorRecovery;

verus! {

/// The order of two things compared in two steps: what the first step
/// found, unless it found them equal; then what the second found.
pub open spec fn refined(first: Option<Ordering>, second: Option<Ordering>) -> Option<Ordering> {
    match first {
        Some(Ordering::Equal) => second,
        _ => first,
    }
}

/// The order of two numbers, read from their difference.
pub open spec fn sign_order(difference: int) -> Ordering {
    if difference < 0 {
        Ordering::Less
    } else if difference == 0 {
        Ordering::Equal
    } else {
        Ordering::Greater
    }
}

/// The order of two sequences under an order of their items: that of the
/// items at the first place where the two are not equal, or, where one
/// sequence ends before such a place, that of the lengths.
pub open spec fn seq_order<A>(
    a: Seq<A>,
    b: Seq<A>,
    item: spec_fn(A, A) -> Option<Ordering>,
) -> Option<Ordering>
    decreases a.len(),
{
    if a.len() == 0 || b.len() == 0 {
        Some(sign_order(a.len() - b.len()))
    } else {
        refined(item(a[0], b[0]), seq_order(a.drop_first(), b.drop_first(), item))
    }
}

/// The order of bytes, as an order of items.
pub open spec fn by_byte() -> spec_fn(u8, u8) -> Option<Ordering> {
    |x: u8, y: u8| Some(sign_order(x - y))
}

/// The order of two names: that of their bytes in UTF-8.
pub open spec fn name_order(a: Seq<char>, b: Seq<char>) -> Option<Ordering> {
    seq_order(encode_utf8(a), encode_utf8(b), by_byte())
}

/// The order of names, as an order of items.
pub open spec fn by_name() -> spec_fn(Seq<char>, Seq<char>) -> Option<Ordering> {
    |x: Seq<char>, y: Seq<char>| name_order(x, y)
}

/// The order of two lists of names.
pub open spec fn names_order(a: Seq<Seq<char>>, b: Seq<Seq<char>>) -> Option<Ordering> {
    seq_order(a, b, by_name())
}

/// The order of two spans: by the start, then by the token, then by the end.
pub open spec fn span_order<L: PartialOrd, T: PartialOrd>(a: (L, T, L), b: (L, T, L)) -> Option<
    Ordering,
> {
    refined(
        a.0.partial_cmp_spec(&b.0),
        refined(a.1.partial_cmp_spec(&b.1), a.2.partial_cmp_spec(&b.2)),
    )
}

/// The order of spans, as an order of items.
pub open spec fn by_span<L: PartialOrd, T: PartialOrd>() -> spec_fn((L, T, L), (L, T, L)) -> Option<
    Ordering,
> {
    |x: (L, T, L), y: (L, T, L)| span_order(x, y)
}

/// The order of two lists of spans.
pub open spec fn spans_order<L: PartialOrd, T: PartialOrd>(
    a: Seq<(L, T, L)>,
    b: Seq<(L, T, L)>,
) -> Option<Ordering> {
    seq_order(a, b, by_span())
}

/// The place of a case among the five.
pub open spec fn kind_rank(kind: Kind) -> nat {
    match kind {
        Kind::InvalidToken => 0,
        Kind::UnrecognizedEOF => 1,
        Kind::UnrecognizedToken => 2,
        Kind::ExtraToken => 3,
        Kind::User => 4,
    }
}

/// The order of two errors: of two of the same case, that of their
/// payloads, the expected names last; of two of different cases, that of
/// the cases.
pub open spec fn error_order<L: PartialOrd, T: PartialOrd, E: PartialOrd>(
    a: ErrorView<L, T, E>,
    b: ErrorView<L, T, E>,
) -> Option<Ordering> {
    match (a, b) {
        (ErrorView::InvalidToken { location: x }, ErrorView::InvalidToken { location: y }) => {
            x.partial_cmp_spec(&y)
        },
        (
            ErrorView::UnrecognizedEOF { location: x, expected: p },
            ErrorView::UnrecognizedEOF { location: y, expected: q },
        ) => refined(x.partial_cmp_spec(&y), names_order(p, q)),
        (
            ErrorView::UnrecognizedToken { token: x, expected: p },
            ErrorView::UnrecognizedToken { token: y, expected: q },
        ) => refined(span_order(x, y), names_order(p, q)),
        (ErrorView::ExtraToken { token: x }, ErrorView::ExtraToken { token: y }) => span_order(
            x,
            y,
        ),
        (ErrorView::User { error: x }, ErrorView::User { error: y }) => x.partial_cmp_spec(&y),
        _ => Some(sign_order(kind_rank(a.kind()) - kind_rank(b.kind()))),
    }
}

/// Two sequences that agree, item by item, on their first `k` places are
/// ordered as what follows those places.
pub proof fn lemma_seq_order_skip<A>(
    a: Seq<A>,
    b: Seq<A>,
    item: spec_fn(A, A) -> Option<Ordering>,
    k: int,
)
    requires
        0 <= k <= a.len(),
        k <= b.len(),
        forall|j: int| 0 <= j < k ==> item(a[j], b[j]) == Some(Ordering::Equal),
    ensures
        seq_order(a, b, item) == seq_order(a.skip(k), b.skip(k), item),
    decreases k,
{
    if k == 0 {
        assert(a.skip(0) =~= a);
        assert(b.skip(0) =~= b);
    } else {
        let ra = a.drop_first();
        let rb = b.drop_first();
        assert(item(a[0], b[0]) == Some(Ordering::Equal));
        assert forall|j: int| 0 <= j < k - 1 implies item(ra[j], rb[j]) == Some(
            Ordering::Equal,
        ) by {
            assert(ra[j] == a[j + 1]);
            assert(rb[j] == b[j + 1]);
        }
        lemma_seq_order_skip(ra, rb, item, k - 1);
        assert(ra.skip(k - 1) =~= a.skip(k));
        assert(rb.skip(k - 1) =~= b.skip(k));
    }
}

/// The order of two lengths.
fn order_lengths(a: usize, b: usize) -> (order: Ordering)
    ensures
        order == sign_order(a - b),
{
    if a < b {
        Ordering::Less
    } else if a == b {
        Ordering::Equal
    } else {
        Ordering::Greater
    }
}

/// The order of two strings of bytes.
fn order_bytes(a: &[u8], b: &[u8]) -> (order: Ordering)
    ensures
        Some(order) == seq_order(a@, b@, by_byte()),
{
    let mut i: usize = 0;
    let ghost mut k: int = 0;
    while i < a.len() && i < b.len()
        invariant
            k == i,
            i <= a@.len(),
            i <= b@.len(),
            forall|j: int| 0 <= j < k ==> a@[j] == b@[j],
        decreases a@.len() - i,
    {
        if a[i] != b[i] {
            proof {
                lemma_seq_order_skip(a@, b@, by_byte(), k);
                assert(a@.skip(k)[0] == a@[k]);
                assert(b@.skip(k)[0] == b@[k]);
            }
            if a[i] < b[i] {
                return Ordering::Less;
            } else {
                return Ordering::Greater;
            }
        }
        i += 1;
        proof {
            k = k + 1;
        }
    }
    proof {
        lemma_seq_order_skip(a@, b@, by_byte(), k);
    }
    order_lengths(a.len(), b.len())
}

/// The order of two lists of names.
pub fn order_names(a: &Vec<String>, b: &Vec<String>) -> (order: Ordering)
    ensures
        Some(order) == names_order(names(a@), names(b@)),
{
    let mut i: usize = 0;
    let ghost mut k: int = 0;
    let ghost x = names(a@);
    let ghost y = names(b@);
    while i < a.len() && i < b.len()
        invariant
            k == i,
            i <= a@.len(),
            i <= b@.len(),
            x == names(a@),
            y == names(b@),
            forall|j: int| 0 <= j < k ==> name_order(x[j], y[j]) == Some(Ordering::Equal),
        decreases a@.len() - i,
    {
        let order = order_bytes(a[i].as_str().as_bytes(), b[i].as_str().as_bytes());
        assert(Some(order) == name_order(x[k], y[k]));
        match order {
            Ordering::Equal => {},
            _ => {
                proof {
                    lemma_seq_order_skip(x, y, by_name(), k);
                    assert(x.skip(k)[0] == x[k]);
                    assert(y.skip(k)[0] == y[k]);
                }
                return order;
            },
        }
        i += 1;
        proof {
            k = k + 1;
        }
    }
    proof {
        lemma_seq_order_skip(x, y, by_name(), k);
    }
    order_lengths(a.len(), b.len())
}

/// The order of two spans, by the `partial_cmp` of locations and of tokens.
fn order_span<L: PartialOrd, T: PartialOrd>(a: &(L, T, L), b: &(L, T, L)) -> (order: Option<
    Ordering,
>)
    ensures
        L::obeys_partial_cmp_spec() && T::obeys_partial_cmp_spec() ==> order == span_order(
            *a,
            *b,
        ),
{
    match a.0.partial_cmp(&b.0) {
        Some(Ordering::Equal) => match a.1.partial_cmp(&b.1) {
            Some(Ordering::Equal) => a.2.partial_cmp(&b.2),
            other => other,
        },
        other => other,
    }
}

/// The order of two lists of spans.
fn order_spans<L: PartialOrd, T: PartialOrd>(a: &Vec<(L, T, L)>, b: &Vec<(L, T, L)>) -> (order:
    Option<Ordering>)
    ensures
        L::obeys_partial_cmp_spec() && T::obeys_partial_cmp_spec() ==> order == spans_order(
            a@,
            b@,
        ),
{
    let mut i: usize = 0;
    let ghost mut k: int = 0;
    while i < a.len() && i < b.len()
        invariant
            k == i,
            i <= a@.len(),
            i <= b@.len(),
            L::obeys_partial_cmp_spec() && T::obeys_partial_cmp_spec() ==> forall|j: int|
                0 <= j < k ==> span_order(a@[j], b@[j]) == Some(Ordering::Equal),
        decreases a@.len() - i,
    {
        let order = order_span(&a[i], &b[i]);
        match order {
            Some(Ordering::Equal) => {},
            _ => {
                proof {
                    if L::obeys_partial_cmp_spec() && T::obeys_partial_cmp_spec() {
                        lemma_seq_order_skip(a@, b@, by_span::<L, T>(), k);
                        assert(a@.skip(k)[0] == a@[k]);
                        assert(b@.skip(k)[0] == b@[k]);
                    }
                }
                return order;
            },
        }
        i += 1;
        proof {
            k = k + 1;
        }
    }
    proof {
        if L::obeys_partial_cmp_spec() && T::obeys_partial_cmp_spec() {
            lemma_seq_order_skip(a@, b@, by_span::<L, T>(), k);
        }
    }
    Some(order_lengths(a.len(), b.len()))
}

impl<L, T, E> ParseError<L, T, E> {
    /// The place of this error's case among the five.
    fn rank(&self) -> (rank: usize)
        ensures
            rank == kind_rank(self@.kind()),
    {
        match self {
            ParseError::InvalidToken { .. } => 0,
            ParseError::UnrecognizedEOF { .. } => 1,
            ParseError::UnrecognizedToken { .. } => 2,
            ParseError::ExtraToken { .. } => 3,
            ParseError::User { .. } => 4,
        }
    }
}

impl<L: PartialOrd, T: PartialOrd, E: PartialOrd> PartialOrd for ParseError<L, T, E> {
    fn partial_cmp(&self, other: &Self) -> (order: Option<Ordering>) {
        match (self, other) {
            (
                ParseError::InvalidToken { location: x },
                ParseError::InvalidToken { location: y },
            ) => x.partial_cmp(y),
            (
                ParseError::UnrecognizedEOF { location: x, expected: p },
                ParseError::UnrecognizedEOF { location: y, expected: q },
            ) => match x.partial_cmp(y) {
                Some(Ordering::Equal) => Some(order_names(p, q)),
                other => other,
            },
            (
                ParseError::UnrecognizedToken { token: x, expected: p },
                ParseError::UnrecognizedToken { token: y, expected: q },
            ) => match order_span(x, y) {
                Some(Ordering::Equal) => Some(order_names(p, q)),
                other => other,
            },
            (ParseError::ExtraToken { token: x }, ParseError::ExtraToken { token: y }) => {
                order_span(x, y)
            },
            (ParseError::User { error: x }, ParseError::User { error: y }) => x.partial_cmp(y),
            _ => Some(order_lengths(self.rank(), other.rank())),
        }
    }
}

impl<L: PartialOrd, T: PartialOrd, E: PartialOrd> PartialOrdSpecImpl for ParseError<L, T, E> {
    open spec fn obeys_partial_cmp_spec() -> bool {
        L::obeys_partial_cmp_spec() && T::obeys_partial_cmp_spec() && E::obeys_partial_cmp_spec()
    }

    open spec fn partial_cmp_spec(&self, other: &Self) -> Option<Ordering> {
        error_order(self@, other@)
    }
}

impl<L: PartialOrd, T: PartialOrd, E: PartialOrd> PartialOrd for ErrorRecovery<L, T, E> {
    fn partial_cmp(&self, other: &Self) -> (order: Option<Ordering>) {
        match self.error.partial_cmp(&other.error) {
            Some(Ordering::Equal) => order_spans(&self.dropped_tokens, &other.dropped_tokens),
            other => other,
        }
    }
}

impl<L: PartialOrd, T: PartialOrd, E: PartialOrd> PartialOrdSpecImpl for ErrorRecovery<L, T, E> {
    open spec fn obeys_partial_cmp_spec() -> bool {
        L::obeys_partial_cmp_spec() && T::obeys_partial_cmp_spec() && E::obeys_partial_cmp_spec()
    }

    open spec fn partial_cmp_spec(&self, other: &Self) -> Option<Ordering> {
        refined(
            error_order(self@.error, other@.error),
            spans_order(self@.dropped_tokens, other@.dropped_tokens),
        )
    }
}

} // verus!

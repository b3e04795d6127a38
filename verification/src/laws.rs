//! What holds of the three maps, of the text of an error and of copies and
//! comparisons of recoveries, whatever the values and the functions.

use vstd::prelude::*;
use vstd::string::*;
use vstd::std_specs::cmp::PartialEqSpec;
use crate::error::ParseError;
use crate::model::{spans_related, ErrorView};
use crate::recovery::{ErrorRecovery, RecoveryView};
use crate::render::{expected_clause, payload_text, rendering, separated};

verus! {

/// A result that is related to an error by relations that each admit only
/// the image under a function is the error mapped by those functions. This
/// links what a map hands back for closures that compute `loc`, `tok` and
/// `err` to the mapped error of the model.
pub proof fn lemma_related_by_functions<L, T, E, LL, TT, EE>(
    e: ErrorView<L, T, E>,
    r: ErrorView<LL, TT, EE>,
    loc_rel: spec_fn(L, LL) -> bool,
    tok_rel: spec_fn(T, TT) -> bool,
    err_rel: spec_fn(E, EE) -> bool,
    loc: spec_fn(L) -> LL,
    tok: spec_fn(T) -> TT,
    err: spec_fn(E) -> EE,
)
    requires
        e.related(r, loc_rel, tok_rel, err_rel),
        forall|a: L, b: LL| #[trigger] loc_rel(a, b) ==> b == loc(a),
        forall|a: T, b: TT| #[trigger] tok_rel(a, b) ==> b == tok(a),
        forall|a: E, b: EE| #[trigger] err_rel(a, b) ==> b == err(a),
    ensures
        r == e.map_intern(loc, tok, err),
{
}

/// A result that is related to an error by equality of every payload is the
/// error itself.
pub proof fn lemma_related_by_equality<L, T, E>(e: ErrorView<L, T, E>, r: ErrorView<L, T, E>)
    requires
        e.related(r, |a: L, b: L| a == b, |a: T, b: T| a == b, |a: E, b: E| a == b),
    ensures
        r == e,
{
}

/// Related errors are of the same case and carry the same expected names,
/// whatever the relations on the payloads.
pub proof fn lemma_related_keeps_kind<L, T, E, LL, TT, EE>(
    e: ErrorView<L, T, E>,
    r: ErrorView<LL, TT, EE>,
    loc_rel: spec_fn(L, LL) -> bool,
    tok_rel: spec_fn(T, TT) -> bool,
    err_rel: spec_fn(E, EE) -> bool,
)
    requires
        e.related(r, loc_rel, tok_rel, err_rel),
    ensures
        r.kind() == e.kind(),
        r.expected() == e.expected(),
{
}

/// The three maps are independent: in whichever order the map of locations,
/// the map of tokens and the map of user errors are applied, the result is
/// the same, namely the error with all three applied at once.
pub proof fn lemma_maps_commute<L, T, E, LL, TT, EE>(
    e: ErrorView<L, T, E>,
    f: spec_fn(L) -> LL,
    g: spec_fn(T) -> TT,
    h: spec_fn(E) -> EE,
)
    ensures
        e.map_location(f).map_token(g).map_error(h) == e.map_intern(f, g, h),
        e.map_location(f).map_error(h).map_token(g) == e.map_intern(f, g, h),
        e.map_token(g).map_location(f).map_error(h) == e.map_intern(f, g, h),
        e.map_token(g).map_error(h).map_location(f) == e.map_intern(f, g, h),
        e.map_error(h).map_location(f).map_token(g) == e.map_intern(f, g, h),
        e.map_error(h).map_token(g).map_location(f) == e.map_intern(f, g, h),
{
}

/// Mapping by the identity, on any of the three parameters or on all at
/// once, gives back the error.
pub proof fn lemma_map_identity<L, T, E>(e: ErrorView<L, T, E>)
    ensures
        e.map_location(|l: L| l) == e,
        e.map_token(|t: T| t) == e,
        e.map_error(|x: E| x) == e,
        e.map_intern(|l: L| l, |t: T| t, |x: E| x) == e,
{
}

/// No map changes the case of an error or its expected names.
pub proof fn lemma_map_keeps_kind<L, T, E, LL, TT, EE>(
    e: ErrorView<L, T, E>,
    f: spec_fn(L) -> LL,
    g: spec_fn(T) -> TT,
    h: spec_fn(E) -> EE,
)
    ensures
        e.map_intern(f, g, h).kind() == e.kind(),
        e.map_location(f).kind() == e.kind(),
        e.map_token(g).kind() == e.kind(),
        e.map_error(h).kind() == e.kind(),
        e.map_intern(f, g, h).expected() == e.expected(),
        e.map_location(f).expected() == e.expected(),
        e.map_token(g).expected() == e.expected(),
        e.map_error(h).expected() == e.expected(),
{
}

/// Mapping the locations and then mapping back by a function that undoes
/// the first gives back the error.
pub proof fn lemma_map_location_round_trip<L, T, E, LL>(
    e: ErrorView<L, T, E>,
    f: spec_fn(L) -> LL,
    back: spec_fn(LL) -> L,
)
    requires
        forall|l: L| back(#[trigger] f(l)) == l,
    ensures
        e.map_location(f).map_location(back) == e,
{
}

/// Mapping the tokens and then mapping back by a function that undoes the
/// first gives back the error.
pub proof fn lemma_map_token_round_trip<L, T, E, TT>(
    e: ErrorView<L, T, E>,
    g: spec_fn(T) -> TT,
    back: spec_fn(TT) -> T,
)
    requires
        forall|t: T| back(#[trigger] g(t)) == t,
    ensures
        e.map_token(g).map_token(back) == e,
{
}

/// Mapping the user error and then mapping back by a function that undoes
/// the first gives back the error.
pub proof fn lemma_map_error_round_trip<L, T, E, EE>(
    e: ErrorView<L, T, E>,
    h: spec_fn(E) -> EE,
    back: spec_fn(EE) -> E,
)
    requires
        forall|x: E| back(#[trigger] h(x)) == x,
    ensures
        e.map_error(h).map_error(back) == e,
{
}

/// Maps compose: mapping by three functions and then by three more is
/// mapping once by the composed functions.
pub proof fn lemma_map_composes<L, T, E, L1, T1, E1, L2, T2, E2>(
    e: ErrorView<L, T, E>,
    f1: spec_fn(L) -> L1,
    g1: spec_fn(T) -> T1,
    h1: spec_fn(E) -> E1,
    f2: spec_fn(L1) -> L2,
    g2: spec_fn(T1) -> T2,
    h2: spec_fn(E1) -> E2,
)
    ensures
        e.map_intern(f1, g1, h1).map_intern(f2, g2, h2) == e.map_intern(
            |l: L| f2(f1(l)),
            |t: T| g2(g1(t)),
            |x: E| h2(h1(x)),
        ),
{
}

/// An empty list of expected names gives no clause at all: no line break and
/// no words.
pub proof fn lemma_clause_of_none()
    ensures
        expected_clause(Seq::empty()) == Seq::<char>::empty(),
{
}

/// A single expected name stands after the opening words alone, without
/// `" or "`.
pub proof fn lemma_clause_of_one(name: Seq<char>)
    ensures
        expected_clause(seq![name]) == "\nExpected one of "@ + name,
{
    reveal_strlit("\n");
    reveal_strlit("Expected one of ");
    reveal_strlit("\nExpected one of ");
    let items = separated(seq![name]);
    items.lemma_flatten_one_element();
    assert(expected_clause(seq![name]) =~= "\nExpected one of "@ + name);
}

/// Of two expected names the second stands after `" or "`.
pub proof fn lemma_clause_of_two(first: Seq<char>, second: Seq<char>)
    ensures
        expected_clause(seq![first, second]) == "\nExpected one of "@ + first + " or "@ + second,
{
    reveal_strlit("\n");
    reveal_strlit("Expected one of ");
    reveal_strlit("\nExpected one of ");
    let items = separated(seq![first, second]);
    reveal_with_fuel(Seq::flatten, 3);
    assert(items.flatten() =~= items[0] + items[1]);
    assert(expected_clause(seq![first, second]) =~= "\nExpected one of "@ + first + " or "@
        + second);
}

/// An unexpected end of input with no expected names is rendered as its
/// sentence alone: nothing follows the location.
pub proof fn lemma_eof_without_expected(location: Seq<char>)
    ensures
        rendering(ErrorView::UnrecognizedEOF { location, expected: Seq::empty() })
            == "Unrecognized EOF found at "@ + location,
{
    assert("Unrecognized EOF found at "@ + location + Seq::<char>::empty()
        =~= "Unrecognized EOF found at "@ + location);
}

/// An unexpected end of input with one expected name is rendered as its
/// sentence, a line break, the opening words and the name.
pub proof fn lemma_eof_with_one_expected(location: Seq<char>, name: Seq<char>)
    ensures
        rendering(ErrorView::UnrecognizedEOF { location, expected: seq![name] })
            == "Unrecognized EOF found at "@ + location + "\nExpected one of "@ + name,
{
    lemma_clause_of_one(name);
    assert("Unrecognized EOF found at "@ + location + ("\nExpected one of "@ + name)
        =~= "Unrecognized EOF found at "@ + location + "\nExpected one of "@ + name);
}

/// The text of an error depends on nothing but its case, the text of its
/// payloads and its expected names: two errors that agree in these have the
/// same text.
pub proof fn lemma_text_is_determined(
    a: ParseError<String, String, String>,
    b: ParseError<String, String, String>,
)
    requires
        payload_text(a@) == payload_text(b@),
    ensures
        rendering(payload_text(a@)) == rendering(payload_text(b@)),
{
}

/// Rendering is a function of the error wherever the payloads' `Display`
/// is one: if each payload can be written in one way only, any two texts
/// that `render` may give for an error are the same.
pub proof fn lemma_render_is_deterministic<
    L: core::fmt::Display,
    T: core::fmt::Display,
    E: core::fmt::Display,
>(e: ParseError<L, T, E>, first: Seq<char>, second: Seq<char>)
    requires
        e.renders_as(first),
        e.renders_as(second),
        forall|l: L, s1: String, s2: String|
            #![trigger
                to_string_from_display_ensures::<L>(&l, s1),
                to_string_from_display_ensures::<L>(&l, s2),
            ]
            to_string_from_display_ensures::<L>(&l, s1) && to_string_from_display_ensures::<L>(
                &l,
                s2,
            ) ==> s1@ == s2@,
        forall|t: T, s1: String, s2: String|
            #![trigger
                to_string_from_display_ensures::<T>(&t, s1),
                to_string_from_display_ensures::<T>(&t, s2),
            ]
            to_string_from_display_ensures::<T>(&t, s1) && to_string_from_display_ensures::<T>(
                &t,
                s2,
            ) ==> s1@ == s2@,
        forall|x: E, s1: String, s2: String|
            #![trigger
                to_string_from_display_ensures::<E>(&x, s1),
                to_string_from_display_ensures::<E>(&x, s2),
            ]
            to_string_from_display_ensures::<E>(&x, s1) && to_string_from_display_ensures::<E>(
                &x,
                s2,
            ) ==> s1@ == s2@,
    ensures
        first == second,
{
    let a = choose|shown: ErrorView<String, String, String>| #[trigger]
        e.shown_as(shown) && first == rendering(payload_text(shown));
    let b = choose|shown: ErrorView<String, String, String>| #[trigger]
        e.shown_as(shown) && second == rendering(payload_text(shown));
    assert(payload_text(a) == payload_text(b));
}

/// Related recoveries hold as many discarded tokens, and the token at each
/// place of the one is related to the token at the same place of the other:
/// neither the length nor the order differs.
pub proof fn lemma_related_keeps_dropped_tokens<L, T, E, LL, TT, EE>(
    a: RecoveryView<L, T, E>,
    b: RecoveryView<LL, TT, EE>,
    loc_rel: spec_fn(L, LL) -> bool,
    tok_rel: spec_fn(T, TT) -> bool,
    err_rel: spec_fn(E, EE) -> bool,
)
    requires
        a.related(b, loc_rel, tok_rel, err_rel),
    ensures
        b.dropped_tokens.len() == a.dropped_tokens.len(),
        forall|i: int|
            0 <= i < a.dropped_tokens.len() ==> spans_related(
                #[trigger] a.dropped_tokens[i],
                b.dropped_tokens[i],
                loc_rel,
                tok_rel,
            ),
        b.error.kind() == a.error.kind(),
        b.error.expected() == a.error.expected(),
{
}

/// A recovery that is related to another by equality of every payload is
/// that recovery: the same error and the same discarded tokens in the same
/// order.
pub proof fn lemma_recovery_related_by_equality<L, T, E>(
    a: RecoveryView<L, T, E>,
    b: RecoveryView<L, T, E>,
)
    requires
        a.related(b, |x: L, y: L| x == y, |x: T, y: T| x == y, |x: E, y: E| x == y),
    ensures
        b == a,
{
    assert(a.dropped_tokens =~= b.dropped_tokens);
}

/// Where a clone of a payload is the payload, a clone of a recovery is the
/// recovery: the same error and the same discarded tokens in the same order.
pub proof fn lemma_clone_is_equal<L: Clone, T: Clone, E: Clone>(
    a: ErrorRecovery<L, T, E>,
    copy: ErrorRecovery<L, T, E>,
)
    requires
        a@.related(
            copy@,
            |x: L, y: L| cloned(x, y),
            |x: T, y: T| cloned(x, y),
            |x: E, y: E| cloned(x, y),
        ),
        forall|x: L, y: L| #[trigger] cloned(x, y) ==> x == y,
        forall|x: T, y: T| #[trigger] cloned(x, y) ==> x == y,
        forall|x: E, y: E| #[trigger] cloned(x, y) ==> x == y,
    ensures
        copy@ == a@,
{
    assert(a@.dropped_tokens =~= copy@.dropped_tokens);
}

/// Where `==` on each payload type is equality, `==` on errors is equality
/// of what they are.
pub proof fn lemma_error_eq_is_equality<L: PartialEq, T: PartialEq, E: PartialEq>(
    a: ParseError<L, T, E>,
    b: ParseError<L, T, E>,
)
    requires
        forall|x: L, y: L| #[trigger] x.eq_spec(&y) <==> x == y,
        forall|x: T, y: T| #[trigger] x.eq_spec(&y) <==> x == y,
        forall|x: E, y: E| #[trigger] x.eq_spec(&y) <==> x == y,
    ensures
        a.eq_spec(&b) <==> a@ == b@,
{
}

/// Where `==` on each payload type is equality, `==` on recoveries is
/// equality of what they are: equal recoveries hold the same discarded
/// tokens in the same order.
pub proof fn lemma_recovery_eq_is_equality<L: PartialEq, T: PartialEq, E: PartialEq>(
    a: ErrorRecovery<L, T, E>,
    b: ErrorRecovery<L, T, E>,
)
    requires
        forall|x: L, y: L| #[trigger] x.eq_spec(&y) <==> x == y,
        forall|x: T, y: T| #[trigger] x.eq_spec(&y) <==> x == y,
        forall|x: E, y: E| #[trigger] x.eq_spec(&y) <==> x == y,
    ensures
        a.eq_spec(&b) <==> a@ == b@,
{
    lemma_error_eq_is_equality(a.error, b.error);
    if a.eq_spec(&b) {
        assert(a@.dropped_tokens =~= b@.dropped_tokens);
    }
}

} // verus!

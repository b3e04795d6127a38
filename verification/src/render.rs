//! The text of a parse error.

use vstd::prelude::*;
use vstd::string::*;
use crate::error::ParseError;
use crate::error::names;
use crate::duplicate::copy_names;
use crate::model::ErrorView;

verus! {

/// What stands before the name at `index` in the clause for `count` expected
/// names: the opening words before the first, `" or "` before the last of
/// two or more, `", "` before each one between.
pub open spec fn separator(index: int, count: nat) -> Seq<char> {
    if index == 0 {
        "Expected one of "@
    } else if index < count - 1 {
        ", "@
    } else {
        " or "@
    }
}

/// Each expected name with its separator before it.
pub open spec fn separated(expected: Seq<Seq<char>>) -> Seq<Seq<char>> {
    Seq::new(expected.len(), |i: int| separator(i, expected.len()) + expected[i])
}

/// The clause that lists the expected names: nothing for an empty list,
/// else a line break and then the names in order, each after its separator.
pub open spec fn expected_clause(expected: Seq<Seq<char>>) -> Seq<char> {
    if expected.len() == 0 {
        Seq::empty()
    } else {
        "\n"@ + separated(expected).flatten()
    }
}

/// The text of an error whose payloads are given as text.
pub open spec fn rendering(e: ErrorView<Seq<char>, Seq<char>, Seq<char>>) -> Seq<char> {
    match e {
        ErrorView::User { error } => error,
        ErrorView::InvalidToken { location } => "Invalid token at "@ + location,
        ErrorView::UnrecognizedEOF { location, expected } => "Unrecognized EOF found at "@
            + location + expected_clause(expected),
        ErrorView::UnrecognizedToken { token, expected } => "Unrecognized token `"@ + token.1
            + "` found at "@ + token.0 + ":"@ + token.2 + expected_clause(expected),
        ErrorView::ExtraToken { token } => "Extra token "@ + token.1 + " found at "@ + token.0
            + ":"@ + token.2,
    }
}

/// Appends to `out` the clause that lists the expected names.
pub fn fmt_expected(out: &mut String, expected: &[String])
    ensures
        final(out)@ == old(out)@ + expected_clause(names(expected@)),
{
    let count = expected.len();
    if count > 0 {
        let ghost before = out@;
        let ghost items = separated(names(expected@));
        out.append("\n");
        let mut i: usize = 0;
        assert(items.take(0) =~= Seq::<Seq<char>>::empty());
        while i < count
            invariant
                count == expected@.len(),
                i <= count,
                items == separated(names(expected@)),
                out@ == before + "\n"@ + items.take(i as int).flatten(),
            decreases count - i,
        {
            let sep = if i == 0 {
                "Expected one of "
            } else if i < count - 1 {
                ", "
            } else {
                " or "
            };
            out.append(sep);
            out.append(expected[i].as_str());
            proof {
                let done = items.take(i as int);
                assert(items.take(i + 1) =~= done.push(items[i as int]));
                done.lemma_flatten_push(items[i as int]);
                assert(items[i as int] == sep@ + expected@[i as int]@);
                assert(out@ =~= before + "\n"@ + items.take(i + 1).flatten());
            }
            i += 1;
        }
        assert(items.take(count as int) =~= items);
        assert(out@ =~= before + expected_clause(names(expected@)));
    } else {
        assert(out@ =~= old(out)@ + expected_clause(names(expected@)));
    }
}

/// An error of strings with each payload taken as the text that it holds.
pub open spec fn payload_text(e: ErrorView<String, String, String>) -> ErrorView<
    Seq<char>,
    Seq<char>,
    Seq<char>,
> {
    e.map_intern(|s: String| s@, |s: String| s@, |s: String| s@)
}

impl ParseError<String, String, String> {
    /// The text of an error whose payloads are already text.
    pub fn to_text(&self) -> (text: String)
        ensures
            text@ == rendering(payload_text(self@)),
    {
        match self {
            ParseError::User { error } => error.clone(),
            ParseError::InvalidToken { location } => {
                let mut out = String::from_str("Invalid token at ");
                out.append(location.as_str());
                out
            },
            ParseError::UnrecognizedEOF { location, expected } => {
                let mut out = String::from_str("Unrecognized EOF found at ");
                out.append(location.as_str());
                fmt_expected(&mut out, expected.as_slice());
                out
            },
            ParseError::UnrecognizedToken { token, expected } => {
                let mut out = String::from_str("Unrecognized token `");
                out.append(token.1.as_str());
                out.append("` found at ");
                out.append(token.0.as_str());
                out.append(":");
                out.append(token.2.as_str());
                fmt_expected(&mut out, expected.as_slice());
                out
            },
            ParseError::ExtraToken { token } => {
                let mut out = String::from_str("Extra token ");
                out.append(token.1.as_str());
                out.append(" found at ");
                out.append(token.0.as_str());
                out.append(":");
                out.append(token.2.as_str());
                out
            },
        }
    }
}

impl<L: core::fmt::Display, T: core::fmt::Display, E: core::fmt::Display> ParseError<L, T, E> {
    /// Whether `shown` is this error with each payload replaced by a string
    /// that the payload's `Display` may write.
    pub open spec fn shown_as(&self, shown: ErrorView<String, String, String>) -> bool {
        self@.related(
            shown,
            |l: L, s: String| to_string_from_display_ensures::<L>(&l, s),
            |t: T, s: String| to_string_from_display_ensures::<T>(&t, s),
            |e: E, s: String| to_string_from_display_ensures::<E>(&e, s),
        )
    }

    /// Whether `text` is the text of this error for some strings that the
    /// payloads' `Display` may write.
    pub open spec fn renders_as(&self, text: Seq<char>) -> bool {
        exists|shown: ErrorView<String, String, String>| #[trigger]
            self.shown_as(shown) && text == rendering(payload_text(shown))
    }

    /// The error with each payload replaced by what its `Display` writes.
    /// The case and the expected names stay as they are.
    pub fn to_strings(&self) -> (shown: ParseError<String, String, String>)
        ensures
            self.shown_as(shown@),
    {
        match self {
            ParseError::InvalidToken { location } => ParseError::InvalidToken {
                location: location.to_string(),
            },
            ParseError::UnrecognizedEOF { location, expected } => {
                let location = location.to_string();
                ParseError::UnrecognizedEOF { location, expected: copy_names(expected) }
            },
            ParseError::UnrecognizedToken { token, expected } => {
                let value = token.1.to_string();
                let start = token.0.to_string();
                let end = token.2.to_string();
                ParseError::UnrecognizedToken {
                    token: (start, value, end),
                    expected: copy_names(expected),
                }
            },
            ParseError::ExtraToken { token } => {
                let value = token.1.to_string();
                let start = token.0.to_string();
                let end = token.2.to_string();
                ParseError::ExtraToken { token: (start, value, end) }
            },
            ParseError::User { error } => ParseError::User { error: error.to_string() },
        }
    }

    /// The text of this error: each payload as its `Display` writes it, set
    /// into the sentence of the error's case, with the clause of expected
    /// names after it where the case has one.
    pub fn render(&self) -> (text: String)
        ensures
            self.renders_as(text@),
    {
        let shown = self.to_strings();
        shown.to_text()
    }
}

} // verus!

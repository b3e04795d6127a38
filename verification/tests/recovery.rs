use lalrpop_util::duplicate::copy_names;
use lalrpop_util::equality::same_names;
use lalrpop_util::{ErrorRecovery, ParseError};

fn sample() -> ErrorRecovery<usize, String, String> {
    ErrorRecovery {
        error: ParseError::UnrecognizedToken {
            token: (4, "+".to_string(), 5),
            expected: vec!["ID".to_string(), "NUM".to_string()],
        },
        dropped_tokens: vec![
            (4, "+".to_string(), 5),
            (6, "*".to_string(), 7),
            (8, "+".to_string(), 9),
            (6, "*".to_string(), 7),
        ],
    }
}

#[test]
fn a_clone_holds_the_same_tokens_in_the_same_order() {
    let first = sample();
    let copy = first.clone();
    assert_eq!(copy.dropped_tokens.len(), 4);
    assert_eq!(copy.dropped_tokens, first.dropped_tokens);
    assert_eq!(copy.error, first.error);
    assert_eq!(copy, first);
    assert_eq!(
        first.dropped_tokens,
        vec![
            (4, "+".to_string(), 5),
            (6, "*".to_string(), 7),
            (8, "+".to_string(), 9),
            (6, "*".to_string(), 7),
        ]
    );
}

#[test]
fn comparing_leaves_the_tokens_as_they_are() {
    let a = sample();
    let b = sample();
    assert!(a == b);
    assert!(!(a != b));
    assert_eq!(a.dropped_tokens, sample().dropped_tokens);
    assert_eq!(b.dropped_tokens, sample().dropped_tokens);
}

#[test]
fn recoveries_differ_by_order_length_or_error() {
    let a = sample();
    let mut swapped = sample();
    swapped.dropped_tokens.swap(0, 1);
    assert_ne!(a, swapped);
    let mut shorter = sample();
    shorter.dropped_tokens.pop();
    assert_ne!(a, shorter);
    let mut other_error = sample();
    other_error.error = ParseError::InvalidToken { location: 4 };
    assert_ne!(a, other_error);
    let mut other_end = sample();
    other_end.dropped_tokens[3].2 = 70;
    assert_ne!(a, other_end);
    let mut other_token = sample();
    other_token.dropped_tokens[2].1 = "-".to_string();
    assert_ne!(a, other_token);
}

#[test]
fn a_recovery_may_hold_no_tokens() {
    let empty: ErrorRecovery<u8, u8, u8> = ErrorRecovery {
        error: ParseError::User { error: 1 },
        dropped_tokens: Vec::new(),
    };
    let copy = empty.clone();
    assert!(copy.dropped_tokens.is_empty());
    assert_eq!(copy, empty);
}

#[test]
fn errors_are_equal_when_case_payloads_and_names_agree() {
    type P = ParseError<u8, char, bool>;
    let names = |items: &[&str]| -> Vec<String> { items.iter().map(|s| s.to_string()).collect() };
    assert_eq!(P::InvalidToken { location: 1 }, P::InvalidToken { location: 1 });
    assert_ne!(P::InvalidToken { location: 1 }, P::InvalidToken { location: 2 });
    assert_ne!(
        P::InvalidToken { location: 1 },
        P::UnrecognizedEOF {
            location: 1,
            expected: Vec::new()
        }
    );
    assert_eq!(
        P::UnrecognizedEOF {
            location: 1,
            expected: names(&["a", "b"])
        },
        P::UnrecognizedEOF {
            location: 1,
            expected: names(&["a", "b"])
        }
    );
    assert_ne!(
        P::UnrecognizedEOF {
            location: 1,
            expected: names(&["a", "b"])
        },
        P::UnrecognizedEOF {
            location: 1,
            expected: names(&["b", "a"])
        }
    );
    assert_ne!(
        P::UnrecognizedEOF {
            location: 1,
            expected: names(&["a", "b"])
        },
        P::UnrecognizedEOF {
            location: 1,
            expected: names(&["a"])
        }
    );
    assert_ne!(
        P::UnrecognizedToken {
            token: (1, 'x', 2),
            expected: names(&["a"])
        },
        P::UnrecognizedToken {
            token: (1, 'y', 2),
            expected: names(&["a"])
        }
    );
    assert_ne!(
        P::UnrecognizedToken {
            token: (1, 'x', 2),
            expected: names(&["a"])
        },
        P::UnrecognizedToken {
            token: (1, 'x', 3),
            expected: names(&["a"])
        }
    );
    assert_ne!(
        P::UnrecognizedToken {
            token: (1, 'x', 2),
            expected: names(&["a"])
        },
        P::UnrecognizedToken {
            token: (1, 'x', 2),
            expected: names(&["b"])
        }
    );
    assert_eq!(P::ExtraToken { token: (1, 'x', 2) }, P::ExtraToken { token: (1, 'x', 2) });
    assert_ne!(P::ExtraToken { token: (1, 'x', 2) }, P::ExtraToken { token: (0, 'x', 2) });
    assert_ne!(
        P::ExtraToken { token: (1, 'x', 2) },
        P::UnrecognizedToken {
            token: (1, 'x', 2),
            expected: Vec::new()
        }
    );
    assert_eq!(P::User { error: true }, P::User { error: true });
    assert_ne!(P::User { error: true }, P::User { error: false });
}

#[test]
fn a_cloned_error_is_equal_to_the_error() {
    type P = ParseError<u8, String, Vec<u8>>;
    let all = vec![
        P::InvalidToken { location: 1 },
        P::UnrecognizedEOF {
            location: 2,
            expected: vec!["x".to_string(), "y".to_string()],
        },
        P::UnrecognizedToken {
            token: (3, "t".to_string(), 4),
            expected: vec!["z".to_string()],
        },
        P::ExtraToken {
            token: (5, "u".to_string(), 6),
        },
        P::User { error: vec![1, 2, 3] },
    ];
    for (i, e) in all.iter().enumerate() {
        assert_eq!(&e.clone(), e);
        for (j, other) in all.iter().enumerate() {
            assert_eq!(e == other, i == j);
        }
    }
}

#[test]
fn same_names_compares_name_by_name() {
    let names = |items: &[&str]| -> Vec<String> { items.iter().map(|s| s.to_string()).collect() };
    assert!(same_names(&names(&[]), &names(&[])));
    assert!(same_names(&names(&["a", "b"]), &names(&["a", "b"])));
    assert!(!same_names(&names(&["a", "b"]), &names(&["a"])));
    assert!(!same_names(&names(&["a", "b"]), &names(&["a", "c"])));
    assert!(!same_names(&names(&["a", "b"]), &names(&["b", "a"])));
    assert!(!same_names(&names(&[]), &names(&[""])));
}

#[test]
fn copy_names_copies_name_by_name() {
    let names: Vec<String> = vec!["one".to_string(), String::new(), "three".to_string()];
    assert_eq!(copy_names(&names), names);
    assert_eq!(copy_names(&Vec::new()), Vec::<String>::new());
}

use lalrpop_util::ParseError;

type Plain = ParseError<u32, char, i8>;

fn names() -> Vec<String> {
    vec!["a".to_string(), "b".to_string()]
}

fn samples() -> Vec<Plain> {
    vec![
        ParseError::InvalidToken { location: 7 },
        ParseError::UnrecognizedEOF {
            location: 9,
            expected: names(),
        },
        ParseError::UnrecognizedEOF {
            location: 0,
            expected: Vec::new(),
        },
        ParseError::UnrecognizedToken {
            token: (1, 'x', 2),
            expected: names(),
        },
        ParseError::ExtraToken { token: (3, 'y', 4) },
        ParseError::User { error: -3 },
    ]
}

fn tag<L, T, E>(e: &ParseError<L, T, E>) -> u8 {
    match e {
        ParseError::InvalidToken { .. } => 0,
        ParseError::UnrecognizedEOF { .. } => 1,
        ParseError::UnrecognizedToken { .. } => 2,
        ParseError::ExtraToken { .. } => 3,
        ParseError::User { .. } => 4,
    }
}

#[test]
fn map_location_maps_every_location() {
    let double = |l: u32| u64::from(l) * 2;
    assert_eq!(
        Plain::InvalidToken { location: 7 }.map_location(double),
        ParseError::InvalidToken { location: 14u64 }
    );
    assert_eq!(
        Plain::UnrecognizedEOF {
            location: 9,
            expected: names()
        }
        .map_location(double),
        ParseError::UnrecognizedEOF {
            location: 18u64,
            expected: names()
        }
    );
    assert_eq!(
        Plain::UnrecognizedToken {
            token: (1, 'x', 2),
            expected: names()
        }
        .map_location(double),
        ParseError::UnrecognizedToken {
            token: (2u64, 'x', 4u64),
            expected: names()
        }
    );
    assert_eq!(
        Plain::ExtraToken { token: (3, 'y', 4) }.map_location(double),
        ParseError::ExtraToken {
            token: (6u64, 'y', 8u64)
        }
    );
    assert_eq!(
        Plain::User { error: -3 }.map_location(double),
        ParseError::User { error: -3 }
    );
}

#[test]
fn map_token_maps_the_token_of_a_span_only() {
    let name = |t: char| format!("<{}>", t);
    assert_eq!(
        Plain::InvalidToken { location: 7 }.map_token(name),
        ParseError::InvalidToken { location: 7 }
    );
    assert_eq!(
        Plain::UnrecognizedEOF {
            location: 9,
            expected: names()
        }
        .map_token(name),
        ParseError::UnrecognizedEOF {
            location: 9,
            expected: names()
        }
    );
    assert_eq!(
        Plain::UnrecognizedToken {
            token: (1, 'x', 2),
            expected: names()
        }
        .map_token(name),
        ParseError::UnrecognizedToken {
            token: (1, "<x>".to_string(), 2),
            expected: names()
        }
    );
    assert_eq!(
        Plain::ExtraToken { token: (3, 'y', 4) }.map_token(name),
        ParseError::ExtraToken {
            token: (3, "<y>".to_string(), 4)
        }
    );
    assert_eq!(
        Plain::User { error: -3 }.map_token(name),
        ParseError::User { error: -3 }
    );
}

#[test]
fn map_error_maps_the_user_error_only() {
    let widen = |e: i8| i64::from(e) - 1;
    assert_eq!(
        Plain::User { error: -3 }.map_error(widen),
        ParseError::User { error: -4i64 }
    );
    assert_eq!(
        Plain::InvalidToken { location: 7 }.map_error(widen),
        ParseError::InvalidToken { location: 7 }
    );
    assert_eq!(
        Plain::UnrecognizedToken {
            token: (1, 'x', 2),
            expected: names()
        }
        .map_error(widen),
        ParseError::UnrecognizedToken {
            token: (1, 'x', 2),
            expected: names()
        }
    );
    assert_eq!(
        Plain::ExtraToken { token: (3, 'y', 4) }.map_error(widen),
        ParseError::ExtraToken { token: (3, 'y', 4) }
    );
    assert_eq!(
        Plain::UnrecognizedEOF {
            location: 9,
            expected: Vec::new()
        }
        .map_error(widen),
        ParseError::UnrecognizedEOF {
            location: 9,
            expected: Vec::new()
        }
    );
}

#[test]
fn map_intern_maps_all_three_at_once() {
    let e = Plain::UnrecognizedToken {
        token: (1, 'x', 2),
        expected: names(),
    };
    assert_eq!(
        e.map_intern(|l| l + 10, |t: char| t.to_ascii_uppercase(), |x: i8| x),
        ParseError::UnrecognizedToken {
            token: (11, 'X', 12),
            expected: names()
        }
    );
    assert_eq!(
        Plain::User { error: 5 }.map_intern(|l| l, |t| t, |x: i8| x == 5),
        ParseError::User { error: true }
    );
}

#[test]
fn maps_commute() {
    let f = |l: u32| i64::from(l) - 100;
    let g = |t: char| t as u32;
    let h = |e: i8| e.to_string();
    for e in samples() {
        let all = e.clone().map_intern(f, g, h);
        assert_eq!(e.clone().map_location(f).map_token(g).map_error(h), all);
        assert_eq!(e.clone().map_location(f).map_error(h).map_token(g), all);
        assert_eq!(e.clone().map_token(g).map_location(f).map_error(h), all);
        assert_eq!(e.clone().map_token(g).map_error(h).map_location(f), all);
        assert_eq!(e.clone().map_error(h).map_location(f).map_token(g), all);
        assert_eq!(e.clone().map_error(h).map_token(g).map_location(f), all);
    }
}

#[test]
fn mapping_by_the_identity_changes_nothing() {
    for e in samples() {
        assert_eq!(e.clone().map_location(|l| l), e);
        assert_eq!(e.clone().map_token(|t| t), e);
        assert_eq!(e.clone().map_error(|x| x), e);
        assert_eq!(e.clone().map_intern(|l| l, |t| t, |x| x), e);
    }
}

#[test]
fn maps_keep_the_case() {
    for e in samples() {
        let before = tag(&e);
        assert_eq!(tag(&e.clone().map_location(|l| l.to_string())), before);
        assert_eq!(tag(&e.clone().map_token(|_| ())), before);
        assert_eq!(tag(&e.clone().map_error(|x| x.abs())), before);
        assert_eq!(tag(&e.clone().map_intern(|_| 0u8, |_| 0u8, |_| 0u8)), before);
    }
}

#[test]
fn mapping_and_mapping_back_gives_the_error() {
    for e in samples() {
        let there = e.clone().map_location(|l| u64::from(l) + 1000);
        assert_eq!(there.map_location(|l| (l - 1000) as u32), e);
        let there = e.clone().map_token(|t| t as u32);
        assert_eq!(there.map_token(|t| char::from_u32(t).unwrap()), e);
        let there = e.clone().map_error(|x| -i16::from(x));
        assert_eq!(there.map_error(|x| (-x) as i8), e);
    }
}

#[test]
fn maps_keep_the_expected_names_in_order() {
    let wanted: Vec<String> = vec!["z", "a", "m", "a"].into_iter().map(String::from).collect();
    let e = ParseError::UnrecognizedEOF::<u8, u8, u8> {
        location: 1,
        expected: wanted.clone(),
    };
    match e.map_location(|l| l + 1).map_token(|t| t + 1).map_error(|x| x + 1) {
        ParseError::UnrecognizedEOF { location, expected } => {
            assert_eq!(location, 2);
            assert_eq!(expected, wanted);
        }
        other => panic!("the case changed: {:?}", other),
    }
}

#[test]
fn a_span_is_mapped_start_first_then_token_then_end() {
    let seen = std::cell::RefCell::new(Vec::new());
    let e = ParseError::ExtraToken::<u32, char, ()> { token: (1, 'c', 2) };
    let mapped = e.map_intern(
        |l| {
            seen.borrow_mut().push(format!("l{}", l));
            l
        },
        |t| {
            seen.borrow_mut().push(format!("t{}", t));
            t
        },
        |x| x,
    );
    assert_eq!(mapped, ParseError::ExtraToken { token: (1, 'c', 2) });
    assert_eq!(seen.into_inner(), vec!["l1", "tc", "l2"]);
}

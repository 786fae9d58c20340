use coffee::fileparse::{
    detect_delimiter, is_nupack_format, parse_exponent, split_number_token, NumberToken,
};

#[test]
fn delimiter_is_first_non_alphanumeric_byte() {
    assert_eq!(detect_delimiter(b"abc,def").unwrap(), b',');
    assert_eq!(detect_delimiter(b"12\t34").unwrap(), b'\t');
    assert_eq!(detect_delimiter(b"a1 b2,c3").unwrap(), b' ');
}

#[test]
fn delimiter_missing_is_an_error() {
    let e = detect_delimiter(b"abc123XYZ").unwrap_err();
    assert_eq!(e.0, "Failed to detect delimiter");
    assert!(detect_delimiter(b"").is_err());
}

#[test]
fn nupack_layout_recognized() {
    let index_col: Vec<i64> = vec![1, 2, 3, 4];
    let count_col: Vec<i64> = vec![1, 1, 1, 1];
    assert!(is_nupack_format(&index_col, &count_col));
}

#[test]
fn nupack_layout_rejected_on_bad_index() {
    let index_col: Vec<i64> = vec![1, 1, 3];
    let count_col: Vec<i64> = vec![1, 1, 1];
    assert!(!is_nupack_format(&index_col, &count_col));
}

#[test]
fn nupack_layout_rejected_on_bad_count() {
    let index_col: Vec<i64> = vec![1, 2, 3];
    let count_col: Vec<i64> = vec![1, 2, 1];
    assert!(!is_nupack_format(&index_col, &count_col));
}

#[test]
fn nupack_layout_checks_only_the_first_twenty_rows() {
    let mut index_col: Vec<i64> = (1..=25).collect();
    let count_col: Vec<i64> = vec![1; 25];
    index_col[22] = 99;
    assert!(is_nupack_format(&index_col, &count_col));
    index_col[5] = 99;
    assert!(!is_nupack_format(&index_col, &count_col));
}

#[test]
fn nupack_layout_empty_is_trivially_true() {
    let empty: Vec<i64> = vec![];
    assert!(is_nupack_format(&empty, &empty));
}

#[test]
fn scientific_token_splits_at_first_e() {
    match split_number_token(b"1.5e-3") {
        NumberToken::Scientific { base, exponent } => {
            assert_eq!(base, b"1.5");
            assert_eq!(exponent, b"-3");
        }
        other => panic!("expected a scientific token, got {:?}", other),
    }
    match split_number_token(b"1e5e6") {
        NumberToken::Scientific { base, exponent } => {
            assert_eq!(base, b"1");
            assert_eq!(exponent, b"5e6");
        }
        other => panic!("expected a scientific token, got {:?}", other),
    }
}

#[test]
fn fractional_token_splits_at_first_dot() {
    match split_number_token(b"12.25") {
        NumberToken::Fractional { whole, fraction } => {
            assert_eq!(whole, b"12");
            assert_eq!(fraction, b"25");
        }
        other => panic!("expected a fractional token, got {:?}", other),
    }
}

#[test]
fn whole_token_passes_through() {
    match split_number_token(b"-42") {
        NumberToken::Whole { digits } => assert_eq!(digits, b"-42"),
        other => panic!("expected a whole token, got {:?}", other),
    }
}

#[test]
fn trailing_dot_collapses_to_whole() {
    match split_number_token(b"42.") {
        NumberToken::Whole { digits } => assert_eq!(digits, b"42"),
        other => panic!("expected a whole token, got {:?}", other),
    }
}

#[test]
fn exponent_parsing_matches_the_standard_parser() {
    let cases = [
        "-3", "+12", "007", "0", "2147483647", "2147483648", "-2147483648", "-2147483649",
        "99999999999999999999", "", "-", "+", "12a", " 3", "1_0", "--4",
    ];
    for case in cases {
        assert_eq!(
            parse_exponent(case.as_bytes()),
            case.parse::<i32>().ok(),
            "mismatch on {:?}",
            case
        );
    }
}

#[test]
fn exponent_values() {
    assert_eq!(parse_exponent(b"-3"), Some(-3));
    assert_eq!(parse_exponent(b"+5"), Some(5));
    assert_eq!(parse_exponent(b"42"), Some(42));
    assert_eq!(parse_exponent(b"-2147483648"), Some(i32::MIN));
    assert_eq!(parse_exponent(b"2147483647"), Some(i32::MAX));
    assert_eq!(parse_exponent(b"2147483648"), None);
}

#[test]
fn empty_token_is_whole_and_empty() {
    match split_number_token(b"") {
        NumberToken::Whole { digits } => assert!(digits.is_empty()),
        other => panic!("expected a whole token, got {:?}", other),
    }
}

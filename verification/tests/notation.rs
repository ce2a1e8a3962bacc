//! Reading a move from the text that an operator typed.

use chess::notation::parse_move;

/// What the standard library makes of the same text: the fields between
/// single spaces, each parsed as a number and counted from one.
fn by_the_standard_library(text: &str) -> Option<(usize, usize, usize, usize)> {
    let mut coordinates = Vec::new();
    for field in text.split(' ') {
        let number: usize = field.parse().ok()?;
        coordinates.push(number.checked_sub(1)?);
    }
    if coordinates.len() < 4 {
        return None;
    }
    Some((coordinates[0], coordinates[1], coordinates[2], coordinates[3]))
}

#[test]
fn four_numbers_counted_from_one() {
    assert_eq!(parse_move(b"1 1 1 4"), Some((0, 0, 0, 3)));
    assert_eq!(parse_move(b"2 1 3 3"), Some((1, 0, 2, 2)));
    assert_eq!(parse_move(b"8 8 1 1"), Some((7, 7, 0, 0)));
}

#[test]
fn numbers_beyond_the_board_are_read_as_they_stand() {
    assert_eq!(parse_move(b"9 1 1 1"), Some((8, 0, 0, 0)));
    assert_eq!(parse_move(b"1 1 1 100"), Some((0, 0, 0, 99)));
    assert_eq!(parse_move(b"12 34 56 78"), Some((11, 33, 55, 77)));
}

#[test]
fn plus_sign_and_leading_zeros_are_accepted() {
    assert_eq!(parse_move(b"+1 +2 +3 +4"), Some((0, 1, 2, 3)));
    assert_eq!(parse_move(b"01 002 0003 4"), Some((0, 1, 2, 3)));
    assert_eq!(parse_move(b"+01 2 3 4"), Some((0, 1, 2, 3)));
}

#[test]
fn zero_is_no_coordinate() {
    assert_eq!(parse_move(b"0 1 1 1"), None);
    assert_eq!(parse_move(b"1 1 1 0"), None);
    assert_eq!(parse_move(b"1 1 00 1"), None);
    assert_eq!(parse_move(b"1 +0 1 1"), None);
}

#[test]
fn fewer_than_four_fields_are_no_move() {
    assert_eq!(parse_move(b""), None);
    assert_eq!(parse_move(b"1"), None);
    assert_eq!(parse_move(b"1 2"), None);
    assert_eq!(parse_move(b"1 2 3"), None);
}

#[test]
fn fields_after_the_fourth_are_read_and_dropped() {
    assert_eq!(parse_move(b"1 2 3 4 5"), Some((0, 1, 2, 3)));
    assert_eq!(parse_move(b"1 2 3 4 5 6 7"), Some((0, 1, 2, 3)));
    assert_eq!(parse_move(b"1 2 3 4 x"), None);
    assert_eq!(parse_move(b"1 2 3 4 0"), None);
    assert_eq!(parse_move(b"1 2 3 4 "), None);
}

#[test]
fn anything_but_digits_spoils_a_field() {
    assert_eq!(parse_move(b"a 1 1 1"), None);
    assert_eq!(parse_move(b"1 1 1 4\n"), None);
    assert_eq!(parse_move(b"1 1 1 4\r"), None);
    assert_eq!(parse_move(b"-1 1 1 1"), None);
    assert_eq!(parse_move(b"1 1 1 1-"), None);
    assert_eq!(parse_move(b"1 1 1 ++1"), None);
    assert_eq!(parse_move(b"1 1 1 1+"), None);
    assert_eq!(parse_move(b"1 1 1 +"), None);
    assert_eq!(parse_move(b"1,1,1,1"), None);
    assert_eq!(parse_move(b"1\t1\t1\t1"), None);
    assert_eq!(parse_move(b"1.0 1 1 1"), None);
    assert_eq!(parse_move(b"1 1 1 /"), None);
    assert_eq!(parse_move(b"1 1 1 :"), None);
    assert_eq!(parse_move("1 1 1 \u{661}".as_bytes()), None);
}

#[test]
fn two_spaces_in_a_row_hold_an_empty_field() {
    assert_eq!(parse_move(b"1  1 1 1"), None);
    assert_eq!(parse_move(b" 1 1 1 1"), None);
    assert_eq!(parse_move(b"1 1 1 1 "), None);
    assert_eq!(parse_move(b"   "), None);
}

#[test]
fn numbers_too_large_for_the_machine_are_no_coordinate() {
    let largest = usize::MAX.to_string();
    let text = format!("{largest} 1 1 1");
    assert_eq!(parse_move(text.as_bytes()), Some((usize::MAX - 1, 0, 0, 0)));
    let text = format!("1 1 1 000{largest}");
    assert_eq!(parse_move(text.as_bytes()), Some((0, 0, 0, usize::MAX - 1)));
    let text = format!("{largest}0 1 1 1");
    assert_eq!(parse_move(text.as_bytes()), None);
    let mut digits = largest.into_bytes();
    let last = digits.len() - 1;
    digits[last] += 1;
    digits.extend_from_slice(b" 1 1 1");
    assert_eq!(parse_move(&digits), None);
    assert_eq!(parse_move(b"1 1 1 99999999999999999999999999999999999999999"), None);
}

#[test]
fn reading_agrees_with_the_standard_library() {
    let largest = usize::MAX.to_string();
    let mut texts: Vec<String> = vec![
        "1 1 1 4", "2 1 3 3", "", " ", "1", "1 2 3", "1 2 3 4 5", "1 2 3 4 ", " 1 2 3 4",
        "1  2 3 4", "+1 +2 +3 +4", "++1 2 3 4", "+ 1 2 3", "-1 2 3 4", "0 1 2 3", "1 2 3 0",
        "01 02 03 04", "1 2 3 4\n", "a b c d", "1 2 3 4 x", "1 2 3 4 0", "9 9 9 9", "1 2 3 4e1",
        "0x1 2 3 4", "1_0 2 3 4", "1 2 3 +", "1 2 3 -", "18446744073709551615 1 1 1",
        "18446744073709551616 1 1 1", "4294967295 1 1 1", "4294967296 1 1 1",
        "000000000000000000000000000000000000001 1 1 1",
    ]
    .into_iter()
    .map(String::from)
    .collect();
    texts.push(format!("{largest} {largest} {largest} {largest}"));
    texts.push(format!("{largest}1 1 1 1"));
    for a in ["1", "8", "0", "+", "", "x", "12"] {
        for b in ["1", "", "+3", "-3", "08"] {
            texts.push(format!("{a} {b} 5 6"));
            texts.push(format!("{b} 7 {a} 2 {b}"));
            texts.push(format!("{a}{b} {b}{a} {a} {b}"));
        }
    }
    for text in &texts {
        assert_eq!(parse_move(text.as_bytes()), by_the_standard_library(text), "{text:?}");
    }
}

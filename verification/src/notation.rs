//! The text of a move as an operator types it: four numbers, separated by
//! single spaces, that give the source file and rank and the destination
//! file and rank, each counted from one.
//!
//! A number is an optional `+` and then decimal digits. The text is read as
//! bytes; a line end, if there is one, is taken off before.

use vstd::prelude::*;

verus! {

/// The byte that separates two fields.
pub const SPACE: u8 = 32;

/// The sign that may stand before the digits of a number.
pub const PLUS: u8 = 43;

/// The digit zero; the other digits follow it.
pub const ZERO: u8 = 48;

/// The digit nine.
pub const NINE: u8 = 57;

/// Whether `byte` is a decimal digit.
pub open spec fn is_digit(byte: u8) -> bool {
    ZERO <= byte <= NINE
}

/// The number that a run of digits stands for, the last digit counting
/// least.
pub open spec fn digits_value(digits: Seq<u8>) -> nat
    decreases digits.len(),
{
    if digits.len() == 0 {
        0
    } else {
        10 * digits_value(digits.drop_last()) + (digits.last() - ZERO) as nat
    }
}

/// Whether `digits` is a run of one or more digits.
pub open spec fn is_numeral(digits: Seq<u8>) -> bool {
    digits.len() > 0 && forall|i: int| 0 <= i < digits.len() ==> is_digit(#[trigger] digits[i])
}

/// A field without the `+` that may lead it.
pub open spec fn unsigned_part(field: Seq<u8>) -> Seq<u8> {
    if field.len() > 0 && field[0] == PLUS {
        field.skip(1)
    } else {
        field
    }
}

/// The number that a field stands for: none where the field is empty, holds
/// anything but digits after an optional `+`, or stands for more than a
/// `usize` can hold.
pub open spec fn field_number(field: Seq<u8>) -> Option<nat> {
    let digits = unsigned_part(field);
    if is_numeral(digits) && digits_value(digits) <= usize::MAX {
        Some(digits_value(digits))
    } else {
        None
    }
}

/// The coordinate that a field stands for. The operator counts from one and
/// the board from zero, so a field that stands for zero gives none.
pub open spec fn field_coordinate(field: Seq<u8>) -> Option<usize> {
    match field_number(field) {
        Some(number) => if number >= 1 {
            Some((number - 1) as usize)
        } else {
            None
        },
        None => None,
    }
}

/// Number of bytes before the first space of `text`, or the length of
/// `text` where it holds none.
pub open spec fn first_field_len(text: Seq<u8>) -> nat
    decreases text.len(),
{
    if text.len() == 0 || text[0] == SPACE {
        0
    } else {
        1 + first_field_len(text.skip(1))
    }
}

/// The fields of `text`: what stands between its spaces, before the first
/// and after the last. A text without a space is one field, and two spaces
/// in a row hold an empty field between them.
pub open spec fn fields(text: Seq<u8>) -> Seq<Seq<u8>>
    decreases text.len(),
{
    let n = first_field_len(text) as int;
    if n >= text.len() {
        seq![text]
    } else {
        seq![text.take(n)] + fields(text.skip(n + 1))
    }
}

/// The text that holds the given fields in order, with one space between
/// every two neighbours.
pub open spec fn joined(parts: Seq<Seq<u8>>) -> Seq<u8>
    decreases parts.len(),
{
    if parts.len() == 0 {
        Seq::empty()
    } else if parts.len() == 1 {
        parts[0]
    } else {
        parts[0] + seq![SPACE] + joined(parts.skip(1))
    }
}

/// The move that `text` stands for: its first four fields as coordinates.
/// There is none where the text has fewer than four fields or where any
/// field, also one after the fourth, stands for no coordinate.
pub open spec fn move_of_text(text: Seq<u8>) -> Option<(usize, usize, usize, usize)> {
    let all = fields(text);
    if all.len() >= 4 && forall|i: int|
        0 <= i < all.len() ==> field_coordinate(#[trigger] all[i]) is Some {
        Some(
            (
                field_coordinate(all[0])->0,
                field_coordinate(all[1])->0,
                field_coordinate(all[2])->0,
                field_coordinate(all[3])->0,
            ),
        )
    } else {
        None
    }
}

/// A run of digits stands for at least as much as any of its prefixes.
proof fn lemma_value_grows_with_digits(digits: Seq<u8>, n: int)
    requires
        0 <= n <= digits.len(),
    ensures
        digits_value(digits.take(n)) <= digits_value(digits),
    decreases digits.len() - n,
{
    if n == digits.len() {
        assert(digits.take(n) =~= digits);
    } else {
        lemma_value_grows_with_digits(digits, n + 1);
        assert(digits.take(n + 1).drop_last() =~= digits.take(n));
    }
}

/// The first field ends within the text; it holds no space, and a space
/// follows it unless the text ends there.
proof fn lemma_first_field_ends_at_space(text: Seq<u8>)
    ensures
        first_field_len(text) <= text.len(),
        forall|i: int| 0 <= i < first_field_len(text) ==> text[i] != SPACE,
        first_field_len(text) < text.len() ==> text[first_field_len(text) as int] == SPACE,
    decreases text.len(),
{
    if text.len() > 0 && text[0] != SPACE {
        let rest = text.skip(1);
        lemma_first_field_ends_at_space(rest);
        assert forall|i: int| 0 <= i < first_field_len(text) implies text[i] != SPACE by {
            if i > 0 {
                assert(text[i] == rest[i - 1]);
            }
        }
    }
}

/// Where the first `n` bytes of `text` hold no space and a space or the end
/// follows them, the first field is `n` bytes long.
proof fn lemma_first_field_len(text: Seq<u8>, n: int)
    requires
        0 <= n <= text.len(),
        forall|i: int| 0 <= i < n ==> text[i] != SPACE,
        n < text.len() ==> text[n] == SPACE,
    ensures
        first_field_len(text) == n,
    decreases n,
{
    if n > 0 {
        lemma_first_field_len(text.skip(1), n - 1);
    }
}

/// Splitting loses nothing: a text has at least one field, no field holds
/// a space, and the fields joined by single spaces are the text again.
pub proof fn fields_join_to_the_text(text: Seq<u8>)
    ensures
        fields(text).len() >= 1,
        forall|i: int|
            0 <= i < fields(text).len() ==> !(#[trigger] fields(text)[i]).contains(SPACE),
        joined(fields(text)) == text,
    decreases text.len(),
{
    let n = first_field_len(text) as int;
    lemma_first_field_ends_at_space(text);
    if n < text.len() {
        let rest = fields(text.skip(n + 1));
        fields_join_to_the_text(text.skip(n + 1));
        assert((seq![text.take(n)] + rest).skip(1) =~= rest);
    }
}

/// Joining is undone by splitting: the fields of a text that was joined
/// from parts without a space are those parts.
pub proof fn joined_parts_are_the_fields(parts: Seq<Seq<u8>>)
    requires
        parts.len() >= 1,
        forall|i: int| 0 <= i < parts.len() ==> !(#[trigger] parts[i]).contains(SPACE),
    ensures
        fields(joined(parts)) == parts,
    decreases parts.len(),
{
    let text = joined(parts);
    let first = parts[0];
    if parts.len() == 1 {
        lemma_first_field_len(text, text.len() as int);
    } else {
        let rest = parts.skip(1);
        joined_parts_are_the_fields(rest);
        lemma_first_field_len(text, first.len() as int);
        assert(text.take(first.len() as int) =~= first);
        assert(text.skip(first.len() as int + 1) =~= joined(rest));
    }
}

/// Reads the number that stands in `text` from `from` up to `to`.
fn parse_number(text: &[u8], from: usize, to: usize) -> (number: Option<usize>)
    requires
        from <= to <= text@.len(),
    ensures
        match number {
            Some(n) => field_number(text@.subrange(from as int, to as int)) == Some(n as nat),
            None => field_number(text@.subrange(from as int, to as int)) is None,
        },
{
    let mut i: usize = from;
    if i < to && text[i] == PLUS {
        i += 1;
    }
    let start: usize = i;
    let ghost digits = text@.subrange(start as int, to as int);
    if i == to {
        return None;
    }
    let mut value: usize = 0;
    while i < to
        invariant
            start <= i <= to <= text@.len(),
            digits == text@.subrange(start as int, to as int),
            digits == unsigned_part(text@.subrange(from as int, to as int)),
            forall|j: int| 0 <= j < i - start ==> is_digit(#[trigger] digits[j]),
            value == digits_value(digits.take(i - start)),
        decreases to - i,
    {
        let byte: u8 = text[i];
        if byte < ZERO || byte > NINE {
            assert(!is_digit(digits[i - start]));
            return None;
        }
        let digit: usize = (byte - ZERO) as usize;
        proof {
            assert(digits.take(i - start + 1).drop_last() =~= digits.take(i - start));
            lemma_value_grows_with_digits(digits, i - start + 1);
        }
        let tens: usize = match value.checked_mul(10) {
            Some(tens) => tens,
            None => {
                return None;
            },
        };
        value = match tens.checked_add(digit) {
            Some(sum) => sum,
            None => {
                return None;
            },
        };
        i += 1;
    }
    assert(digits.take(i - start) =~= digits);
    Some(value)
}

/// Reads a move from its text. The result is `None` exactly where the text
/// stands for no move.
pub fn parse_move(text: &[u8]) -> (parsed: Option<(usize, usize, usize, usize)>)
    ensures
        parsed == move_of_text(text@),
{
    let mut coordinates: Vec<usize> = Vec::new();
    let ghost mut done: Seq<Seq<u8>> = Seq::empty();
    let mut start: usize = 0;
    assert(text@.skip(0) =~= text@);
    loop
        invariant_except_break
            start <= text@.len(),
            fields(text@) == done + fields(text@.skip(start as int)),
        invariant
            done.len() == coordinates@.len(),
            forall|i: int|
                0 <= i < done.len() ==> field_coordinate(#[trigger] done[i]) == Some(
                    coordinates@[i],
                ),
        ensures
            fields(text@) == done,
        decreases text@.len() - start,
    {
        let ghost rest = text@.skip(start as int);
        let mut end: usize = start;
        while end < text.len() && text[end] != SPACE
            invariant
                start <= end <= text@.len(),
                forall|i: int| start <= i < end ==> text@[i] != SPACE,
            decreases text@.len() - end,
        {
            end += 1;
        }
        let ghost field = text@.subrange(start as int, end as int);
        proof {
            lemma_first_field_len(rest, end - start);
            assert(rest.take(end - start) =~= field);
            if end < text@.len() {
                assert(rest.skip(end - start + 1) =~= text@.skip(end + 1));
            }
            assert(fields(text@)[done.len() as int] == field);
        }
        let coordinate: usize = match parse_number(text, start, end) {
            Some(number) => {
                if number == 0 {
                    return None;
                }
                number - 1
            },
            None => {
                return None;
            },
        };
        coordinates.push(coordinate);
        proof {
            done = done.push(field);
        }
        if end == text.len() {
            break;
        }
        start = end + 1;
    }
    if coordinates.len() < 4 {
        None
    } else {
        Some((coordinates[0], coordinates[1], coordinates[2], coordinates[3]))
    }
}

} // verus!

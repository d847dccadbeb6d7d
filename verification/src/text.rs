//! The offset as text. A format string is literal text with fields in it: a
//! field is `%`, an optional padding flag (`-`, `_` or `0`) and a letter.
//! The one field of an offset is `%z`, its sign, two digits of hours and two
//! of minutes; `%%` stands for a percent sign.

use crate::offset::{div_toward_zero, UtcOffset};
use vstd::prelude::*;
use vstd::string::StrSliceExecFns;

verus! {

/// Why a text could not be read as an offset.
#[derive(Debug, Copy, Clone, PartialEq, Eq, Structural)]
pub enum ParseError {
    /// The text at a `%z` field is not a sign and four digits.
    InvalidOffset,
    /// The format string ends inside a field.
    MissingFormatSpecifier,
    /// The format string has a field that an offset has not.
    InvalidFormatSpecifier(char),
    /// The text differs from the literal text of the format string.
    UnexpectedCharacter { expected: char, actual: char },
    /// The text ends before the literal text of the format string does.
    UnexpectedEndOfString,
    /// The format string has no `%z` field, so nothing says what the offset is.
    InsufficientInformation,
}

/// One item of a format string.
#[derive(Debug, Copy, Clone, PartialEq, Eq, Structural)]
pub enum FormatItem {
    /// A character that stands for itself.
    Literal(char),
    /// The `%z` field.
    Offset,
}

/// What has been read from a text so far.
#[derive(Debug, Copy, Clone, PartialEq, Eq, Structural)]
pub struct ParsedItems {
    pub offset: Option<UtcOffset>,
}

/// Whether `c` is one of the three padding flags.
pub open spec fn is_padding(c: char) -> bool {
    c == '-' || c == '_' || c == '0'
}

/// The number of characters before the letter of the field that starts
/// `format`: the `%`, and the padding flag where there is one.
pub open spec fn field_lead(format: Seq<char>) -> int {
    if format.len() > 1 && is_padding(format[1]) {
        2
    } else {
        1
    }
}

/// The item at the head of a format string that is not empty, with the
/// number of characters that it takes up.
pub open spec fn first_item(format: Seq<char>) -> Result<(FormatItem, int), ParseError> {
    if format[0] != '%' {
        Ok((FormatItem::Literal(format[0]), 1))
    } else if format.len() <= field_lead(format) {
        Err(ParseError::MissingFormatSpecifier)
    } else if format[field_lead(format)] == 'z' {
        Ok((FormatItem::Offset, field_lead(format) + 1))
    } else if format[field_lead(format)] == '%' {
        Ok((FormatItem::Literal('%'), field_lead(format) + 1))
    } else {
        Err(ParseError::InvalidFormatSpecifier(format[field_lead(format)]))
    }
}

/// `items` put before what followed them, where that is well formed.
pub open spec fn items_then(
    items: Seq<FormatItem>,
    rest: Result<Seq<FormatItem>, ParseError>,
) -> Result<Seq<FormatItem>, ParseError> {
    match rest {
        Ok(rest) => Ok(items + rest),
        Err(error) => Err(error),
    }
}

/// The items of a format string from left to right, or what is wrong with
/// the first field that is not well formed.
pub open spec fn format_items(format: Seq<char>) -> Result<Seq<FormatItem>, ParseError>
    decreases format.len(),
{
    if format.len() == 0 {
        Ok(Seq::empty())
    } else {
        match first_item(format) {
            Ok((item, width)) => items_then(seq![item], format_items(format.skip(width))),
            Err(error) => Err(error),
        }
    }
}

/// Splits a format string into its items.
pub fn parse_fmt_string(format: &str) -> (items: Result<Vec<FormatItem>, ParseError>)
    ensures
        match items {
            Ok(items) => format_items(format@) == Ok::<Seq<FormatItem>, ParseError>(items@),
            Err(error) => format_items(format@) == Err::<Seq<FormatItem>, ParseError>(error),
        },
{
    let len: usize = format.unicode_len();
    let mut items: Vec<FormatItem> = Vec::new();
    let mut at: usize = 0;
    assert(format@.skip(0) =~= format@);
    assert(match format_items(format@) {
        Ok(all) => Seq::<FormatItem>::empty() + all =~= all,
        Err(_) => true,
    });
    while at < len
        invariant
            len == format@.len(),
            at <= len,
            format_items(format@) == items_then(items@, format_items(format@.skip(at as int))),
        decreases len - at,
    {
        let ghost rest = format@.skip(at as int);
        let ghost before = items@;
        let c = format.get_char(at);
        if c != '%' {
            items.push(FormatItem::Literal(c));
            at = at + 1;
        } else {
            let mut letter_at: usize = at + 1;
            if letter_at < len {
                let flag = format.get_char(letter_at);
                if flag == '-' || flag == '_' || flag == '0' {
                    letter_at = letter_at + 1;
                }
            }
            assert(letter_at - at == field_lead(rest));
            if letter_at >= len {
                return Err(ParseError::MissingFormatSpecifier);
            }
            let letter = format.get_char(letter_at);
            if letter == 'z' {
                items.push(FormatItem::Offset);
            } else if letter == '%' {
                items.push(FormatItem::Literal('%'));
            } else {
                return Err(ParseError::InvalidFormatSpecifier(letter));
            }
            at = letter_at + 1;
        }
        proof {
            let width = first_item(rest).unwrap().1;
            assert(rest.skip(width) =~= format@.skip(at as int));
            assert(items@ =~= before + seq![items@.last()]);
            assert(match format_items(format@.skip(at as int)) {
                Ok(tail) => (before + seq![items@.last()]) + tail =~= before + (seq![
                    items@.last(),
                ] + tail),
                Err(_) => true,
            });
        }
    }
    assert(format@.skip(at as int) =~= Seq::<char>::empty());
    assert(items@ + Seq::<FormatItem>::empty() =~= items@);
    Ok(items)
}

/// The decimal digit for a number from 0 to 9.
pub open spec fn digit_char(d: int) -> char {
    if d == 0 {
        '0'
    } else if d == 1 {
        '1'
    } else if d == 2 {
        '2'
    } else if d == 3 {
        '3'
    } else if d == 4 {
        '4'
    } else if d == 5 {
        '5'
    } else if d == 6 {
        '6'
    } else if d == 7 {
        '7'
    } else if d == 8 {
        '8'
    } else {
        '9'
    }
}

/// A number in decimal digits, without leading zeros.
pub open spec fn decimal(n: nat) -> Seq<char>
    decreases n,
{
    if n < 10 {
        seq![digit_char(n as int)]
    } else {
        decimal(n / 10).push(digit_char((n % 10) as int))
    }
}

/// A number in decimal digits, with a leading zero where it has one digit.
pub open spec fn two_digits(n: nat) -> Seq<char> {
    if n < 10 {
        seq!['0'] + decimal(n)
    } else {
        decimal(n)
    }
}

/// The `%z` field of an offset of `seconds` seconds: the sign, `-` for any
/// offset west of UTC and `+` otherwise, then its whole hours and the whole
/// minutes left over, two digits each. The seconds left over are not shown.
pub open spec fn offset_field(seconds: int) -> Seq<char> {
    let magnitude = if seconds < 0 {
        -seconds
    } else {
        seconds
    };
    seq![if seconds < 0 {
        '-'
    } else {
        '+'
    }] + two_digits((magnitude / 3600) as nat) + two_digits(((magnitude / 60) % 60) as nat)
}

/// The text of one item for an offset of `seconds` seconds.
pub open spec fn item_text(item: FormatItem, seconds: int) -> Seq<char> {
    match item {
        FormatItem::Literal(c) => seq![c],
        FormatItem::Offset => offset_field(seconds),
    }
}

/// The texts of the items, one after the other.
pub open spec fn rendered(items: Seq<FormatItem>, seconds: int) -> Seq<char>
    decreases items.len(),
{
    if items.len() == 0 {
        Seq::empty()
    } else {
        rendered(items.drop_last(), seconds) + item_text(items.last(), seconds)
    }
}

/// Whether `c` is a decimal digit.
pub open spec fn is_digit(c: char) -> bool {
    '0' <= c <= '9'
}

/// The number that a decimal digit stands for.
pub open spec fn digit_value(c: char) -> int {
    c as int - '0' as int
}

/// The seconds of the offset that the head of `text` spells out as a `%z`
/// field: a sign, two digits of hours and two of minutes. There is none
/// where the head of `text` is anything else.
pub open spec fn offset_field_seconds(text: Seq<char>) -> Option<int> {
    if text.len() >= 5 && (text[0] == '+' || text[0] == '-') && is_digit(text[1]) && is_digit(
        text[2],
    ) && is_digit(text[3]) && is_digit(text[4]) {
        let hours = 10 * digit_value(text[1]) + digit_value(text[2]);
        let minutes = 10 * digit_value(text[3]) + digit_value(text[4]);
        if text[0] == '-' {
            Some(-60 * (60 * hours + minutes))
        } else {
            Some(60 * (60 * hours + minutes))
        }
    } else {
        None
    }
}

/// What reading `text` by `items` gives, item by item from the left: the
/// seconds of the last `%z` field, or `found` where there is none, or the
/// first thing that does not match. Text beyond the last item is not read.
pub open spec fn parsed_items(
    items: Seq<FormatItem>,
    text: Seq<char>,
    found: Option<int>,
) -> Result<Option<int>, ParseError>
    decreases items.len(),
{
    if items.len() == 0 {
        Ok(found)
    } else {
        match items[0] {
            FormatItem::Literal(c) => {
                if text.len() == 0 {
                    Err(ParseError::UnexpectedEndOfString)
                } else if text[0] != c {
                    Err(ParseError::UnexpectedCharacter { expected: c, actual: text[0] })
                } else {
                    parsed_items(items.skip(1), text.skip(1), found)
                }
            },
            FormatItem::Offset => match offset_field_seconds(text) {
                Some(seconds) => parsed_items(items.skip(1), text.skip(5), Some(seconds)),
                None => Err(ParseError::InvalidOffset),
            },
        }
    }
}

/// What reading `text` by the items of `format` gives: the seconds of the
/// last `%z` field if there is one, or the first thing that is wrong. What is
/// wrong with the format string comes before what is wrong with the text.
pub open spec fn read_by(text: Seq<char>, format: Seq<char>) -> Result<Option<int>, ParseError> {
    match format_items(format) {
        Ok(items) => parsed_items(items, text, None),
        Err(error) => Err(error),
    }
}

/// The seconds of the offset that `text` spells out under `format`, or why
/// it spells out none.
pub open spec fn parsed(text: Seq<char>, format: Seq<char>) -> Result<int, ParseError> {
    match read_by(text, format) {
        Ok(Some(seconds)) => Ok(seconds),
        Ok(None) => Err(ParseError::InsufficientInformation),
        Err(error) => Err(error),
    }
}

impl ParsedItems {
    /// The seconds of the offset that was read, if one was.
    pub open spec fn seconds(self) -> Option<int> {
        match self.offset {
            Some(offset) => Some(offset@),
            None => None,
        }
    }
}

/// `String::push` of std: `c` is put at the end of `text`, and nothing else
/// of `text` changes.
#[verifier::external_body]
fn push_char(text: &mut String, c: char)
    ensures
        final(text)@ == old(text)@.push(c),
{
    text.push(c);
}

/// Puts the digit for `d` at the end of `text`.
fn push_digit(text: &mut String, d: u32)
    requires
        d < 10,
    ensures
        final(text)@ == old(text)@.push(digit_char(d as int)),
{
    let digit = match d {
        0 => '0',
        1 => '1',
        2 => '2',
        3 => '3',
        4 => '4',
        5 => '5',
        6 => '6',
        7 => '7',
        8 => '8',
        _ => '9',
    };
    push_char(text, digit);
}

/// Puts `n` in decimal digits at the end of `text`.
fn push_decimal(text: &mut String, n: u32)
    ensures
        final(text)@ == old(text)@ + decimal(n as nat),
    decreases n,
{
    if n < 10 {
        push_digit(text, n);
        assert(old(text)@.push(digit_char(n as int)) =~= old(text)@ + decimal(n as nat));
    } else {
        push_decimal(text, n / 10);
        push_digit(text, n % 10);
        assert((old(text)@ + decimal((n / 10) as nat)).push(digit_char((n % 10) as int)) =~= old(
            text,
        )@ + decimal(n as nat));
    }
}

/// Puts `n` in at least two decimal digits at the end of `text`.
fn push_two_digits(text: &mut String, n: u32)
    ensures
        final(text)@ == old(text)@ + two_digits(n as nat),
{
    if n < 10 {
        push_char(text, '0');
    }
    push_decimal(text, n);
    assert(final(text)@ =~= old(text)@ + two_digits(n as nat));
}

/// Puts the `%z` field of `offset` at the end of `text`.
fn push_offset_field(text: &mut String, offset: UtcOffset)
    ensures
        final(text)@ == old(text)@ + offset_field(offset@),
{
    let seconds: i64 = offset.as_seconds() as i64;
    let magnitude: u32 = if seconds < 0 {
        (-seconds) as u32
    } else {
        seconds as u32
    };
    push_char(text, if seconds < 0 { '-' } else { '+' });
    push_two_digits(text, magnitude / 3_600);
    push_two_digits(text, (magnitude / 60) % 60);
    assert(final(text)@ =~= old(text)@ + offset_field(offset@));
}

/// The number that the decimal digit `c` stands for, if it is one.
fn digit_of(c: char) -> (value: Option<i16>)
    ensures
        value is Some <==> is_digit(c),
        value matches Some(v) ==> v == digit_value(c),
{
    match c {
        '0' => Some(0),
        '1' => Some(1),
        '2' => Some(2),
        '3' => Some(3),
        '4' => Some(4),
        '5' => Some(5),
        '6' => Some(6),
        '7' => Some(7),
        '8' => Some(8),
        '9' => Some(9),
        _ => None,
    }
}

/// Reads the two digits of `text` at `at` as one number.
fn two_digits_at(text: &str, at: usize, len: usize) -> (value: Option<i16>)
    requires
        len == text@.len(),
        at + 2 <= len,
    ensures
        value is Some <==> is_digit(text@[at as int]) && is_digit(text@[at + 1]),
        value matches Some(v) ==> v == 10 * digit_value(text@[at as int]) + digit_value(
            text@[at + 1],
        ),
{
    let tens = match digit_of(text.get_char(at)) {
        Some(tens) => tens,
        None => return None,
    };
    let ones = match digit_of(text.get_char(at + 1)) {
        Some(ones) => ones,
        None => return None,
    };
    Some(tens * 10 + ones)
}

/// Reads a `%z` field from `text` at `at`.
fn offset_field_at(text: &str, at: usize, len: usize) -> (offset: Option<UtcOffset>)
    requires
        len == text@.len(),
        at <= len,
    ensures
        match offset {
            Some(offset) => offset_field_seconds(text@.skip(at as int)) == Some(offset@),
            None => offset_field_seconds(text@.skip(at as int)) is None,
        },
{
    if len - at < 5 {
        return None;
    }
    let sign = text.get_char(at);
    if sign != '+' && sign != '-' {
        return None;
    }
    let hours = match two_digits_at(text, at + 1, len) {
        Some(hours) => hours,
        None => return None,
    };
    let minutes = match two_digits_at(text, at + 3, len) {
        Some(minutes) => minutes,
        None => return None,
    };
    if sign == '-' {
        Some(UtcOffset::minutes(-(hours * 60 + minutes)))
    } else {
        Some(UtcOffset::minutes(hours * 60 + minutes))
    }
}

/// Reads `text` by the items of `format`, from the left.
pub fn parse_items(text: &str, format: &str) -> (items: Result<ParsedItems, ParseError>)
    ensures
        match items {
            Ok(items) => read_by(text@, format@) == Ok::<Option<int>, ParseError>(
                items.seconds(),
            ),
            Err(error) => read_by(text@, format@) == Err::<Option<int>, ParseError>(error),
        },
{
    let by = match parse_fmt_string(format) {
        Ok(by) => by,
        Err(error) => return Err(error),
    };
    let len: usize = text.unicode_len();
    let mut items = ParsedItems { offset: None };
    let mut at: usize = 0;
    let mut i: usize = 0;
    assert(by@.skip(0) =~= by@ && text@.skip(0) =~= text@);
    while i < by.len()
        invariant
            len == text@.len(),
            at <= len,
            i <= by.len(),
            format_items(format@) == Ok::<Seq<FormatItem>, ParseError>(by@),
            parsed_items(by@, text@, None) == parsed_items(
                by@.skip(i as int),
                text@.skip(at as int),
                items.seconds(),
            ),
        decreases by.len() - i,
    {
        let ghost left = by@.skip(i as int);
        let ghost rest = text@.skip(at as int);
        assert(left.skip(1) =~= by@.skip(i + 1));
        match by[i] {
            FormatItem::Literal(expected) => {
                if at >= len {
                    return Err(ParseError::UnexpectedEndOfString);
                }
                let actual = text.get_char(at);
                if actual != expected {
                    return Err(ParseError::UnexpectedCharacter { expected, actual });
                }
                assert(rest.skip(1) =~= text@.skip(at + 1));
                at = at + 1;
            },
            FormatItem::Offset => {
                match offset_field_at(text, at, len) {
                    Some(offset) => {
                        items.offset = Some(offset);
                    },
                    None => return Err(ParseError::InvalidOffset),
                }
                assert(rest.skip(5) =~= text@.skip(at + 5));
                at = at + 5;
            },
        }
        i = i + 1;
    }
    Ok(items)
}

impl UtcOffset {
    /// The offset written out by a format string. The format string has to
    /// be well formed and have no field but those of an offset.
    pub fn format(self, format: &str) -> (text: String)
        requires
            format_items(format@) is Ok,
        ensures
            format_items(format@) matches Ok(items) && text@ == rendered(items, self@),
    {
        let items = parse_fmt_string(format).unwrap();
        let mut text = String::new();
        let mut i: usize = 0;
        assert(items@.take(0) =~= Seq::<FormatItem>::empty());
        while i < items.len()
            invariant
                i <= items.len(),
                text@ == rendered(items@.take(i as int), self@),
            decreases items.len() - i,
        {
            assert(items@.take(i + 1).drop_last() =~= items@.take(i as int));
            match items[i] {
                FormatItem::Literal(c) => {
                    push_char(&mut text, c);
                    assert(text@ =~= rendered(items@.take(i as int), self@) + seq![c]);
                },
                FormatItem::Offset => push_offset_field(&mut text, self),
            }
            i = i + 1;
        }
        assert(items@.take(i as int) =~= items@);
        text
    }

    /// The offset that `s` spells out under the format string `format`.
    pub fn parse(s: &str, format: &str) -> (offset: Result<UtcOffset, ParseError>)
        ensures
            match offset {
                Ok(offset) => parsed(s@, format@) == Ok::<int, ParseError>(offset@),
                Err(error) => parsed(s@, format@) == Err::<int, ParseError>(error),
            },
    {
        match parse_items(s, format) {
            Ok(items) => UtcOffset::try_from_parsed_items(items),
            Err(error) => Err(error),
        }
    }

    /// The offset among what was read from a text, if there is one.
    pub fn try_from_parsed_items(items: ParsedItems) -> (offset: Result<UtcOffset, ParseError>)
        ensures
            offset == match items.offset {
                Some(found) => Ok::<UtcOffset, ParseError>(found),
                None => Err::<UtcOffset, ParseError>(ParseError::InsufficientInformation),
            },
    {
        match items.offset {
            Some(found) => Ok(found),
            None => Err(ParseError::InsufficientInformation),
        }
    }
}

/// What `%z` writes, `%z` reads back to the minute: for an offset of less
/// than a hundred hours either way, the field written for it spells out the
/// offset's whole minutes, rounded toward zero.
pub proof fn lemma_field_reads_back(seconds: int)
    requires
        -360_000 < seconds < 360_000,
    ensures
        offset_field(seconds).len() == 5,
        offset_field_seconds(offset_field(seconds)) == Some(60 * div_toward_zero(seconds, 60)),
        parsed_items(seq![FormatItem::Offset], offset_field(seconds), None) == Ok::<
            Option<int>,
            ParseError,
        >(Some(60 * div_toward_zero(seconds, 60))),
{
    let magnitude = if seconds < 0 {
        -seconds
    } else {
        seconds
    };
    let hours = magnitude / 3600;
    let minutes = (magnitude / 60) % 60;
    lemma_two_digits(hours);
    lemma_two_digits(minutes);
    let field = offset_field(seconds);
    assert(field =~= seq![
        field[0],
        digit_char(hours / 10),
        digit_char(hours % 10),
        digit_char(minutes / 10),
        digit_char(minutes % 10),
    ]);
    assert(magnitude / 60 == 60 * hours + minutes);
    assert(seq![FormatItem::Offset].skip(1) =~= Seq::<FormatItem>::empty());
    reveal_with_fuel(parsed_items, 2);
}

/// A number below a hundred has two digits, those of its tens and its ones,
/// and each stands for its number.
proof fn lemma_two_digits(n: int)
    requires
        0 <= n < 100,
    ensures
        two_digits(n as nat) =~= seq![digit_char(n / 10), digit_char(n % 10)],
        is_digit(digit_char(n / 10)) && digit_value(digit_char(n / 10)) == n / 10,
        is_digit(digit_char(n % 10)) && digit_value(digit_char(n % 10)) == n % 10,
{
    reveal_with_fuel(decimal, 2);
}

} // verus!

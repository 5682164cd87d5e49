//! The textual form of a colour: `rgba(<red>, <green>, <blue>, <alpha>)`
//! with red, green and blue as whole numbers from 0 to 255 and alpha as a
//! decimal number from 0 to 1.
//!
//! A text is first split at its commas into four fields; each field is then
//! judged on its own, so that an error names every field that is wrong.

use vstd::prelude::*;
use super::component::{Component, FloatingComponent, IntegerComponent};
use super::Rgba;

verus! {

/// What is wrong with one field of a text.
#[derive(Debug, Clone, Copy, PartialEq, Eq, Structural)]
pub enum FieldFault {
    /// The field is not a number of the form asked for.
    NotANumber,
    /// The field is a number too large for its channel.
    OutOfRange,
}

/// What is wrong with each field of a text; `None` for a field that is
/// right.
#[derive(Debug, Clone, Copy, PartialEq, Eq, Structural)]
pub struct FieldFaults {
    pub red: Option<FieldFault>,
    pub green: Option<FieldFault>,
    pub blue: Option<FieldFault>,
    pub alpha: Option<FieldFault>,
}

/// Why a text is not a colour.
#[derive(Debug, Clone, Copy, PartialEq, Eq, Structural)]
pub enum ParseError {
    /// The text is not `rgba(`, four fields parted by three commas, and `)`.
    Malformed,
    /// The text has the right shape, but some of its fields are wrong.
    InvalidFields(FieldFaults),
}

pub open spec fn is_space(byte: u8) -> bool {
    byte == 32 || byte == 9 || byte == 10 || byte == 13
}

pub open spec fn is_digit(byte: u8) -> bool {
    48 <= byte <= 57
}

/// The first position from `from` up to `to` that holds `byte`; `to` where
/// none does.
pub open spec fn next_byte(text: Seq<u8>, from: int, to: int, byte: u8) -> int
    decreases to - from,
{
    if from >= to {
        to
    } else if text[from] == byte {
        from
    } else {
        next_byte(text, from + 1, to, byte)
    }
}

/// The first position from `from` up to `to` that holds no space; `to`
/// where all are spaces.
pub open spec fn after_spaces(text: Seq<u8>, from: int, to: int) -> int
    decreases to - from,
{
    if from >= to {
        to
    } else if !is_space(text[from]) {
        from
    } else {
        after_spaces(text, from + 1, to)
    }
}

/// The end of `from..to` once the spaces at its end are left off.
pub open spec fn before_spaces(text: Seq<u8>, from: int, to: int) -> int
    decreases to - from,
{
    if from >= to {
        from
    } else if !is_space(text[to - 1]) {
        to
    } else {
        before_spaces(text, from, to - 1)
    }
}

/// Whether `from..to` holds digits only.
pub open spec fn all_digits(text: Seq<u8>, from: int, to: int) -> bool {
    forall|at: int| from <= at < to ==> is_digit(#[trigger] text[at])
}

/// Whether `from..to` holds the digit zero only.
pub open spec fn all_zeros(text: Seq<u8>, from: int, to: int) -> bool {
    forall|at: int| from <= at < to ==> #[trigger] text[at] == 48
}

/// The number that the digits of `from..to` write.
pub open spec fn number_of(text: Seq<u8>, from: int, to: int) -> nat
    decreases to - from,
{
    if from >= to {
        0
    } else {
        number_of(text, from, to - 1) * 10 + (text[to - 1] - 48) as nat
    }
}

/// The number that the first `places` digits from `from` write, with a zero
/// for every place at or after `to`.
pub open spec fn fraction_of(text: Seq<u8>, from: int, to: int, places: nat) -> nat
    decreases places,
{
    if places == 0 {
        0
    } else {
        fraction_of(text, from, to, (places - 1) as nat) * 10 + (if from + places - 1 < to {
            (text[from + places - 1] - 48) as nat
        } else {
            0
        })
    }
}

pub open spec fn power_of_ten(exponent: nat) -> nat
    decreases exponent,
{
    if exponent == 0 {
        1
    } else {
        10 * power_of_ten((exponent - 1) as nat)
    }
}

/// What is wrong with the field `from..to` as a red, green or blue channel.
/// Spaces around the number do not count; the number is one digit or more,
/// and no more than 255.
pub open spec fn channel_fault_of(text: Seq<u8>, from: int, to: int) -> Option<FieldFault> {
    let start = after_spaces(text, from, to);
    let end = before_spaces(text, start, to);
    if start >= end || !all_digits(text, start, end) {
        Some(FieldFault::NotANumber)
    } else if number_of(text, start, end) > 255 {
        Some(FieldFault::OutOfRange)
    } else {
        None
    }
}

/// The byte that the field `from..to` writes.
pub open spec fn channel_of_field(text: Seq<u8>, from: int, to: int) -> int {
    let start = after_spaces(text, from, to);
    number_of(text, start, before_spaces(text, start, to)) as int
}

/// What is wrong with the field `from..to` as an alpha channel. Spaces
/// around the number do not count; the number is digits with at most one
/// point among them, one digit at least, and no more than 1.
pub open spec fn alpha_fault_of(text: Seq<u8>, from: int, to: int) -> Option<FieldFault> {
    let start = after_spaces(text, from, to);
    let end = before_spaces(text, start, to);
    let point = next_byte(text, start, end, 46);
    if !all_digits(text, start, point) || !all_digits(text, point + 1, end) || end - start <= (
    if point < end {
        1int
    } else {
        0int
    }) {
        Some(FieldFault::NotANumber)
    } else if number_of(text, start, point) > 1 || (number_of(text, start, point) == 1
        && !all_zeros(text, point + 1, end)) {
        Some(FieldFault::OutOfRange)
    } else {
        None
    }
}

/// The alpha, in parts, that the field `from..to` writes: the number times
/// 65535, rounded to the nearest part. Of the digits after the point the
/// first nine count.
pub open spec fn alpha_of_field(text: Seq<u8>, from: int, to: int) -> int {
    let start = after_spaces(text, from, to);
    let end = before_spaces(text, start, to);
    let point = next_byte(text, start, end, 46);
    if number_of(text, start, point) >= 1 {
        65535
    } else {
        (fraction_of(text, point + 1, end, 9) as int * 131070 + 1000000000) / 2000000000
    }
}

/// Whether `text` starts with `rgba(`.
pub open spec fn has_opening(text: Seq<u8>) -> bool {
    &&& text.len() >= 6
    &&& text[0] == 114
    &&& text[1] == 103
    &&& text[2] == 98
    &&& text[3] == 97
    &&& text[4] == 40
}

/// The positions of the three commas of a text, each `text.len() - 1` where
/// the comma is missing.
pub open spec fn commas_of(text: Seq<u8>) -> (int, int, int) {
    let close = text.len() - 1;
    let first = next_byte(text, 5, close, 44);
    let second = next_byte(text, first + 1, close, 44);
    let third = next_byte(text, second + 1, close, 44);
    (first, second, third)
}

/// Whether `text` is `rgba(`, four fields parted by exactly three commas,
/// and `)`.
pub open spec fn well_shaped(text: Seq<u8>) -> bool {
    let close = text.len() - 1;
    let commas = commas_of(text);
    &&& has_opening(text)
    &&& text[close] == 41
    &&& commas.2 < close
    &&& next_byte(text, commas.2 + 1, close, 44) == close
}

/// What is wrong with each field of a well-shaped text.
pub open spec fn faults_of(text: Seq<u8>) -> FieldFaults {
    let close = text.len() - 1;
    let commas = commas_of(text);
    FieldFaults {
        red: channel_fault_of(text, 5, commas.0),
        green: channel_fault_of(text, commas.0 + 1, commas.1),
        blue: channel_fault_of(text, commas.1 + 1, commas.2),
        alpha: alpha_fault_of(text, commas.2 + 1, close),
    }
}

pub open spec fn faultless(faults: FieldFaults) -> bool {
    faults.red is None && faults.green is None && faults.blue is None && faults.alpha is None
}

/// The colour that a well-shaped text with faultless fields writes.
pub open spec fn color_of_text(text: Seq<u8>) -> Rgba {
    let close = text.len() - 1;
    let commas = commas_of(text);
    Rgba {
        red: FloatingComponent((channel_of_field(text, 5, commas.0) * 257) as u16),
        green: FloatingComponent((channel_of_field(text, commas.0 + 1, commas.1) * 257) as u16),
        blue: FloatingComponent((channel_of_field(text, commas.1 + 1, commas.2) * 257) as u16),
        alpha: FloatingComponent(alpha_of_field(text, commas.2 + 1, close) as u16),
    }
}

/// What reading `text` gives: the colour it writes, or why it writes none.
pub open spec fn parsed_of(text: Seq<u8>) -> Result<Rgba, ParseError> {
    if !well_shaped(text) {
        Err(ParseError::Malformed)
    } else if !faultless(faults_of(text)) {
        Err(ParseError::InvalidFields(faults_of(text)))
    } else {
        Ok(color_of_text(text))
    }
}

/// Finds the first `byte` in `from..to`.
pub fn find_byte(text: &[u8], from: usize, to: usize, byte: u8) -> (at: usize)
    requires
        from <= to <= text.len(),
    ensures
        at == next_byte(text@, from as int, to as int, byte),
        from <= at <= to,
        at < to ==> text[at as int] == byte,
{
    let mut at: usize = from;
    while at < to && text[at] != byte
        invariant
            from <= at <= to <= text.len(),
            next_byte(text@, from as int, to as int, byte) == next_byte(
                text@,
                at as int,
                to as int,
                byte,
            ),
        decreases to - at,
    {
        at = at + 1;
    }
    at
}

/// Decides whether a byte is a space, a tab, a line feed or a carriage
/// return.
pub fn byte_is_space(byte: u8) -> (space: bool)
    ensures
        space == is_space(byte),
{
    byte == 32 || byte == 9 || byte == 10 || byte == 13
}

/// Leaves off the spaces at both ends of `from..to`.
pub fn trim(text: &[u8], from: usize, to: usize) -> (bounds: (usize, usize))
    requires
        from <= to <= text.len(),
    ensures
        bounds.0 == after_spaces(text@, from as int, to as int),
        bounds.1 == before_spaces(text@, bounds.0 as int, to as int),
        from <= bounds.0 <= bounds.1 <= to,
{
    let mut start: usize = from;
    while start < to && byte_is_space(text[start])
        invariant
            from <= start <= to <= text.len(),
            after_spaces(text@, from as int, to as int) == after_spaces(
                text@,
                start as int,
                to as int,
            ),
        decreases to - start,
    {
        start = start + 1;
    }
    let mut end: usize = to;
    while end > start && byte_is_space(text[end - 1])
        invariant
            start <= end <= to <= text.len(),
            before_spaces(text@, start as int, to as int) == before_spaces(
                text@,
                start as int,
                end as int,
            ),
        decreases end - start,
    {
        end = end - 1;
    }
    (start, end)
}

/// Decides whether `from..to` holds digits only.
pub fn only_digits(text: &[u8], from: usize, to: usize) -> (digits: bool)
    requires
        from <= to <= text.len(),
    ensures
        digits == all_digits(text@, from as int, to as int),
{
    let mut at: usize = from;
    while at < to
        invariant
            from <= at <= to <= text.len(),
            all_digits(text@, from as int, at as int),
        decreases to - at,
    {
        if text[at] < 48 || text[at] > 57 {
            assert(!is_digit(text@[at as int]));
            return false;
        }
        at = at + 1;
    }
    true
}

/// Decides whether `from..to` holds the digit zero only.
pub fn only_zeros(text: &[u8], from: usize, to: usize) -> (zeros: bool)
    requires
        from <= to <= text.len(),
    ensures
        zeros == all_zeros(text@, from as int, to as int),
{
    let mut at: usize = from;
    while at < to
        invariant
            from <= at <= to <= text.len(),
            all_zeros(text@, from as int, at as int),
        decreases to - at,
    {
        if text[at] != 48 {
            assert(text@[at as int] != 48);
            return false;
        }
        at = at + 1;
    }
    true
}

/// Reads the number that the digits of `from..to` write, held at `cap`.
pub fn read_number(text: &[u8], from: usize, to: usize, cap: u32) -> (number: u32)
    requires
        from <= to <= text.len(),
        all_digits(text@, from as int, to as int),
        cap <= 1000,
    ensures
        number as nat == if number_of(text@, from as int, to as int) > cap {
            cap as nat
        } else {
            number_of(text@, from as int, to as int)
        },
{
    let mut number: u32 = 0;
    let mut at: usize = from;
    while at < to
        invariant
            from <= at <= to <= text.len(),
            all_digits(text@, from as int, to as int),
            cap <= 1000,
            number as nat == if number_of(text@, from as int, at as int) > cap {
                cap as nat
            } else {
                number_of(text@, from as int, at as int)
            },
        decreases to - at,
    {
        assert(is_digit(text@[at as int]));
        let digit: u32 = (text[at] - 48) as u32;
        let next: u32 = number * 10 + digit;
        number = if next > cap {
            cap
        } else {
            next
        };
        at = at + 1;
    }
    number
}

/// Reads the first nine digits after the point as a number of nine digits.
pub fn read_fraction(text: &[u8], from: usize, to: usize) -> (fraction: u64)
    requires
        from <= to <= text.len(),
        all_digits(text@, from as int, to as int),
    ensures
        fraction == fraction_of(text@, from as int, to as int, 9),
        fraction < 1000000000,
{
    let mut fraction: u64 = 0;
    let mut place: usize = 0;
    while place < 9
        invariant
            from <= to <= text.len(),
            all_digits(text@, from as int, to as int),
            place <= 9,
            fraction == fraction_of(text@, from as int, to as int, place as nat),
            fraction < power_of_ten(place as nat),
            power_of_ten(place as nat) <= 1000000000,
        decreases 9 - place,
    {
        proof {
            reveal_with_fuel(power_of_ten, 11);
        }
        let digit: u64 = if place < to - from {
            assert(is_digit(text@[from + place]));
            (text[from + place] - 48) as u64
        } else {
            0
        };
        fraction = fraction * 10 + digit;
        place = place + 1;
    }
    proof {
        reveal_with_fuel(power_of_ten, 11);
    }
    fraction
}

/// Judges the field `from..to` as a red, green or blue channel.
pub fn read_channel(text: &[u8], from: usize, to: usize) -> (read: Result<u8, FieldFault>)
    requires
        from <= to <= text.len(),
    ensures
        read is Ok <==> channel_fault_of(text@, from as int, to as int) is None,
        read matches Err(fault) ==> channel_fault_of(text@, from as int, to as int) == Some(fault),
        read matches Ok(channel) ==> channel == channel_of_field(text@, from as int, to as int),
{
    let bounds = trim(text, from, to);
    if bounds.0 >= bounds.1 || !only_digits(text, bounds.0, bounds.1) {
        return Err(FieldFault::NotANumber);
    }
    let number: u32 = read_number(text, bounds.0, bounds.1, 256);
    if number > 255 {
        Err(FieldFault::OutOfRange)
    } else {
        Ok(number as u8)
    }
}

/// Judges the field `from..to` as an alpha channel.
pub fn read_alpha(text: &[u8], from: usize, to: usize) -> (read: Result<u16, FieldFault>)
    requires
        from <= to <= text.len(),
    ensures
        read is Ok <==> alpha_fault_of(text@, from as int, to as int) is None,
        read matches Err(fault) ==> alpha_fault_of(text@, from as int, to as int) == Some(fault),
        read matches Ok(alpha) ==> alpha == alpha_of_field(text@, from as int, to as int),
{
    let bounds = trim(text, from, to);
    let point: usize = find_byte(text, bounds.0, bounds.1, 46);
    let digits: usize = if point < bounds.1 {
        bounds.1 - bounds.0 - 1
    } else {
        bounds.1 - bounds.0
    };
    if digits == 0 || !only_digits(text, bounds.0, point) {
        return Err(FieldFault::NotANumber);
    }
    if point < bounds.1 {
        if !only_digits(text, point + 1, bounds.1) {
            return Err(FieldFault::NotANumber);
        }
    } else {
        assert(all_digits(text@, point + 1, bounds.1 as int));
        assert(all_zeros(text@, point + 1, bounds.1 as int));
    }
    let whole: u32 = read_number(text, bounds.0, point, 2);
    if whole > 1 {
        return Err(FieldFault::OutOfRange);
    }
    if whole == 1 {
        if point < bounds.1 && !only_zeros(text, point + 1, bounds.1) {
            return Err(FieldFault::OutOfRange);
        }
        return Ok(65535);
    }
    let fraction: u64 = if point < bounds.1 {
        read_fraction(text, point + 1, bounds.1)
    } else {
        proof {
            lemma_no_fraction(text@, point + 1, bounds.1 as int, 9);
        }
        0
    };
    Ok(((fraction * 131070 + 1000000000) / 2000000000) as u16)
}

/// Where no digit follows the point, the fraction is 0.
pub proof fn lemma_no_fraction(text: Seq<u8>, from: int, to: int, places: nat)
    requires
        from >= to,
    ensures
        fraction_of(text, from, to, places) == 0,
    decreases places,
{
    if places > 0 {
        lemma_no_fraction(text, from, to, (places - 1) as nat);
    }
}

/// Reads a colour from its textual form.
///
/// A text that is not `rgba(`, four fields parted by three commas, and `)`
/// is `Malformed`. Otherwise every field is judged on its own, and where
/// any is wrong the error says of each field what is wrong with it.
pub fn parse_rgba(text: &[u8]) -> (parsed: Result<Rgba, ParseError>)
    ensures
        parsed == parsed_of(text@),
{
    if text.len() < 6 || text[0] != 114 || text[1] != 103 || text[2] != 98 || text[3] != 97
        || text[4] != 40 {
        return Err(ParseError::Malformed);
    }
    let close: usize = text.len() - 1;
    if text[close] != 41 {
        return Err(ParseError::Malformed);
    }
    let first: usize = find_byte(text, 5, close, 44);
    let second: usize = if first < close {
        find_byte(text, first + 1, close, 44)
    } else {
        close
    };
    let third: usize = if second < close {
        find_byte(text, second + 1, close, 44)
    } else {
        close
    };
    if third >= close {
        return Err(ParseError::Malformed);
    }
    if find_byte(text, third + 1, close, 44) != close {
        return Err(ParseError::Malformed);
    }
    let red = read_channel(text, 5, first);
    let green = read_channel(text, first + 1, second);
    let blue = read_channel(text, second + 1, third);
    let alpha = read_alpha(text, third + 1, close);
    match (red, green, blue, alpha) {
        (Ok(red), Ok(green), Ok(blue), Ok(alpha)) => Ok(
            Rgba {
                red: IntegerComponent(red).to_floating_component(),
                green: IntegerComponent(green).to_floating_component(),
                blue: IntegerComponent(blue).to_floating_component(),
                alpha: FloatingComponent(alpha),
            },
        ),
        _ => Err(
            ParseError::InvalidFields(
                FieldFaults {
                    red: fault_in(red),
                    green: fault_in(green),
                    blue: fault_in(blue),
                    alpha: fault_in(alpha),
                },
            ),
        ),
    }
}

/// The fault that a reading ended in, if it did.
pub fn fault_in<T>(read: Result<T, FieldFault>) -> (fault: Option<FieldFault>)
    ensures
        fault is None <==> read is Ok,
        read matches Err(found) ==> fault == Some(found),
{
    match read {
        Ok(_) => None,
        Err(found) => Some(found),
    }
}

/// The digits that write `number`, without leading zeros.
pub open spec fn digits_of(number: nat) -> Seq<u8>
    decreases number,
{
    if number < 10 {
        seq![(48 + number) as u8]
    } else {
        digits_of(number / 10).push((48 + number % 10) as u8)
    }
}

/// The six digits that write `number`, with leading zeros.
pub open spec fn six_digits_of(number: nat) -> Seq<u8> {
    seq![
        (48 + number / 100000 % 10) as u8,
        (48 + number / 10000 % 10) as u8,
        (48 + number / 1000 % 10) as u8,
        (48 + number / 100 % 10) as u8,
        (48 + number / 10 % 10) as u8,
        (48 + number % 10) as u8,
    ]
}

/// The millionths nearest to an alpha of `parts`.
pub open spec fn millionths_of(parts: int) -> nat {
    ((parts * 2000000 + 65535) / 131070) as nat
}

/// The text of an alpha of `parts`: `1` for the whole, else `0.` and the
/// six digits of its millionths.
pub open spec fn alpha_text_of(parts: int) -> Seq<u8> {
    if parts >= 65535 {
        seq![49u8]
    } else {
        seq![48u8, 46u8] + six_digits_of(millionths_of(parts))
    }
}

/// The textual form of a colour: red, green and blue as the nearest bytes,
/// alpha to six places.
pub open spec fn text_of(color: Rgba) -> Seq<u8> {
    seq![114u8, 103u8, 98u8, 97u8, 40u8] + digits_of(
        IntegerComponent::of_parts(color.red.0 as int).0 as nat,
    ) + seq![44u8, 32u8] + digits_of(IntegerComponent::of_parts(color.green.0 as int).0 as nat)
        + seq![44u8, 32u8] + digits_of(IntegerComponent::of_parts(color.blue.0 as int).0 as nat)
        + seq![44u8, 32u8] + alpha_text_of(color.alpha.0 as int) + seq![41u8]
}

/// Appends the digits of `number`.
pub fn push_digits(out: &mut Vec<u8>, number: u32)
    ensures
        final(out)@ == old(out)@ + digits_of(number as nat),
    decreases number,
{
    if number >= 10 {
        push_digits(out, number / 10);
    }
    out.push((48 + number % 10) as u8);
    assert(final(out)@ =~= old(out)@ + digits_of(number as nat));
}

/// Appends the text of an alpha of `parts`.
pub fn push_alpha(out: &mut Vec<u8>, parts: u16)
    ensures
        final(out)@ == old(out)@ + alpha_text_of(parts as int),
{
    if parts == 65535 {
        out.push(49);
    } else {
        let millionths: u32 = ((parts as u64 * 2000000 + 65535) / 131070) as u32;
        out.push(48);
        out.push(46);
        out.push((48 + millionths / 100000 % 10) as u8);
        out.push((48 + millionths / 10000 % 10) as u8);
        out.push((48 + millionths / 1000 % 10) as u8);
        out.push((48 + millionths / 100 % 10) as u8);
        out.push((48 + millionths / 10 % 10) as u8);
        out.push((48 + millionths % 10) as u8);
    }
    assert(final(out)@ =~= old(out)@ + alpha_text_of(parts as int));
}

/// Writes a colour in its textual form.
pub fn to_text(color: Rgba) -> (text: Vec<u8>)
    ensures
        text@ == text_of(color),
{
    let mut text: Vec<u8> = Vec::new();
    text.push(114);
    text.push(103);
    text.push(98);
    text.push(97);
    text.push(40);
    assert(text@ =~= seq![114u8, 103u8, 98u8, 97u8, 40u8]);
    push_digits(&mut text, color.red.to_integer_component().0 as u32);
    text.push(44);
    text.push(32);
    let ghost after_red = seq![114u8, 103u8, 98u8, 97u8, 40u8] + digits_of(
        IntegerComponent::of_parts(color.red.0 as int).0 as nat,
    ) + seq![44u8, 32u8];
    assert(text@ =~= after_red);
    push_digits(&mut text, color.green.to_integer_component().0 as u32);
    text.push(44);
    text.push(32);
    let ghost after_green = after_red + digits_of(
        IntegerComponent::of_parts(color.green.0 as int).0 as nat,
    ) + seq![44u8, 32u8];
    assert(text@ =~= after_green);
    push_digits(&mut text, color.blue.to_integer_component().0 as u32);
    text.push(44);
    text.push(32);
    let ghost after_blue = after_green + digits_of(
        IntegerComponent::of_parts(color.blue.0 as int).0 as nat,
    ) + seq![44u8, 32u8];
    assert(text@ =~= after_blue);
    push_alpha(&mut text, color.alpha.0);
    text.push(41);
    assert(text@ =~= text_of(color));
    text
}

/// The colour that the text of `color` writes: red, green and blue at
/// their nearest bytes, alpha as it is.
pub open spec fn snapped_of(color: Rgba) -> Rgba {
    Rgba {
        red: FloatingComponent((IntegerComponent::of_parts(color.red.0 as int).0 * 257) as u16),
        green: FloatingComponent((IntegerComponent::of_parts(color.green.0 as int).0 * 257) as u16),
        blue: FloatingComponent((IntegerComponent::of_parts(color.blue.0 as int).0 * 257) as u16),
        alpha: color.alpha,
    }
}

/// The digits of a number are digits, one at least.
pub proof fn lemma_digits(number: nat)
    ensures
        digits_of(number).len() >= 1,
        forall|at: int| 0 <= at < digits_of(number).len() ==> is_digit(#[trigger] digits_of(number)[at]),
    decreases number,
{
    if number >= 10 {
        lemma_digits(number / 10);
    }
}

/// The digits of a number write that number.
pub proof fn lemma_digits_write_number(text: Seq<u8>, from: int, to: int, number: nat)
    requires
        0 <= from <= to <= text.len(),
        text.subrange(from, to) == digits_of(number),
    ensures
        number_of(text, from, to) == number,
    decreases number,
{
    lemma_digits(number);
    let digits = digits_of(number);
    assert(to - from == digits.len());
    assert(text[to - 1] == text.subrange(from, to)[to - 1 - from]);
    if number >= 10 {
        lemma_digits(number / 10);
        assert(text.subrange(from, to - 1) =~= digits_of(number / 10)) by {
            assert forall|at: int| 0 <= at < to - 1 - from implies #[trigger] text.subrange(
                from,
                to - 1,
            )[at] == digits_of(number / 10)[at] by {
                assert(text.subrange(from, to)[at] == digits[at]);
            }
        }
        lemma_digits_write_number(text, from, to - 1, number / 10);
    } else {
        assert(number_of(text, from, from) == 0);
    }
}

/// A search ends on the first place that holds the byte it looks for, or
/// at the end of its range where no place does.
pub proof fn lemma_search_result(text: Seq<u8>, from: int, to: int, byte: u8)
    requires
        0 <= from <= to <= text.len(),
    ensures
        from <= next_byte(text, from, to, byte) <= to,
        forall|at: int| from <= at < next_byte(text, from, to, byte) ==> #[trigger] text[at] != byte,
        next_byte(text, from, to, byte) < to ==> text[next_byte(text, from, to, byte)] == byte,
    decreases to - from,
{
    if from < to && text[from] != byte {
        lemma_search_result(text, from + 1, to, byte);
    }
}

/// A search passes over what is not the byte it looks for.
pub proof fn lemma_search_passes(text: Seq<u8>, from: int, over: int, to: int, byte: u8)
    requires
        0 <= from <= over <= to <= text.len(),
        forall|at: int| from <= at < over ==> #[trigger] text[at] != byte,
    ensures
        next_byte(text, from, to, byte) == next_byte(text, over, to, byte),
    decreases over - from,
{
    if from < over {
        lemma_search_passes(text, from + 1, over, to, byte);
    }
}

/// A field that is the digits of a byte, after at most one space, is read
/// as that byte.
pub proof fn lemma_channel_reads_back(text: Seq<u8>, from: int, start: int, to: int, number: nat)
    requires
        0 <= from <= start <= to <= text.len(),
        start == from || (start == from + 1 && text[from] == 32),
        text.subrange(start, to) == digits_of(number),
        number <= 255,
    ensures
        channel_fault_of(text, from, to) is None,
        channel_of_field(text, from, to) == number,
{
    lemma_digits(number);
    let digits = digits_of(number);
    assert forall|at: int| start <= at < to implies is_digit(#[trigger] text[at]) by {
        assert(text[at] == text.subrange(start, to)[at - start]);
    }
    assert(is_digit(text[start]));
    assert(is_digit(text[to - 1]));
    assert(after_spaces(text, start, to) == start);
    assert(after_spaces(text, from, to) == start);
    assert(before_spaces(text, start, to) == to);
    lemma_digits_write_number(text, start, to, number);
}

/// Six digits write the number below a million that they are the digits
/// of.
pub proof fn lemma_six_digits(number: nat)
    requires
        number < 1000000,
    ensures
        number == (number / 100000 % 10) * 100000 + (number / 10000 % 10) * 10000 + (number / 1000
            % 10) * 1000 + (number / 100 % 10) * 100 + (number / 10 % 10) * 10 + number % 10,
{
    let tens = number / 10;
    let hundreds = tens / 10;
    let thousands = hundreds / 10;
    let myriads = thousands / 10;
    let lakhs = myriads / 10;
    assert(hundreds == number / 100);
    assert(thousands == number / 1000);
    assert(myriads == number / 10000);
    assert(lakhs == number / 100000);
    assert(lakhs < 10);
    assert(number == tens * 10 + number % 10);
    assert(tens == hundreds * 10 + tens % 10);
    assert(hundreds == thousands * 10 + hundreds % 10);
    assert(thousands == myriads * 10 + thousands % 10);
    assert(myriads == lakhs * 10 + myriads % 10);
}

/// The millionths of an alpha round back to the alpha.
pub proof fn lemma_millionths_round_back(parts: int)
    requires
        0 <= parts < 65535,
    ensures
        millionths_of(parts) < 1000000,
        (millionths_of(parts) * 1000 * 131070 + 1000000000) / 2000000000 == parts,
{
}

/// A field that is the text of an alpha, after one space, is read as that
/// alpha.
pub proof fn lemma_alpha_reads_back(text: Seq<u8>, from: int, to: int, parts: int)
    requires
        0 <= from < to <= text.len(),
        text[from] == 32,
        0 <= parts <= 65535,
        text.subrange(from + 1, to) == alpha_text_of(parts),
    ensures
        alpha_fault_of(text, from, to) is None,
        alpha_of_field(text, from, to) == parts,
{
    let start = from + 1;
    let written = alpha_text_of(parts);
    assert forall|at: int| start <= at < to implies #[trigger] text[at] == written[at - start] by {
        assert(text[at] == text.subrange(start, to)[at - start]);
    }
    if parts >= 65535 {
        assert(written.len() == 1);
        assert(text[start] == 49);
        assert(after_spaces(text, start, to) == start);
        assert(after_spaces(text, from, to) == start);
        assert(before_spaces(text, start, to) == to);
        assert(next_byte(text, start + 1, to, 46) == to);
        assert(next_byte(text, start, to, 46) == to);
        assert(number_of(text, start, start) == 0);
        assert(number_of(text, start, to) == 1);
    } else {
        lemma_millionths_round_back(parts);
        let millionths = millionths_of(parts);
        lemma_six_digits(millionths);
        let digits = six_digits_of(millionths);
        assert(written.len() == 8);
        assert(to == start + 8);
        assert(text[start] == 48);
        assert(text[start + 1] == 46);
        assert(text[start + 2] == digits[0]);
        assert(text[start + 3] == digits[1]);
        assert(text[start + 4] == digits[2]);
        assert(text[start + 5] == digits[3]);
        assert(text[start + 6] == digits[4]);
        assert(text[start + 7] == digits[5]);
        assert(after_spaces(text, start, to) == start);
        assert(after_spaces(text, from, to) == start);
        assert(before_spaces(text, start, to) == to);
        assert(next_byte(text, start + 1, to, 46) == start + 1);
        assert(next_byte(text, start, to, 46) == start + 1);
        assert(number_of(text, start, start) == 0);
        assert(number_of(text, start, start + 1) == 0);
        let point = start + 1;
        let first = point + 1;
        assert(fraction_of(text, first, to, 0) == 0);
        assert(fraction_of(text, first, to, 1) == millionths / 100000 % 10);
        assert(fraction_of(text, first, to, 2) == fraction_of(text, first, to, 1) * 10 + millionths
            / 10000 % 10);
        assert(fraction_of(text, first, to, 3) == fraction_of(text, first, to, 2) * 10 + millionths
            / 1000 % 10);
        assert(fraction_of(text, first, to, 4) == fraction_of(text, first, to, 3) * 10 + millionths
            / 100 % 10);
        assert(fraction_of(text, first, to, 5) == fraction_of(text, first, to, 4) * 10 + millionths
            / 10 % 10);
        assert(fraction_of(text, first, to, 6) == fraction_of(text, first, to, 5) * 10 + millionths
            % 10);
        assert(fraction_of(text, first, to, 6) == millionths);
        assert(fraction_of(text, first, to, 7) == millionths * 10);
        assert(fraction_of(text, first, to, 8) == millionths * 100);
        assert(fraction_of(text, first, to, 9) == millionths * 1000);
    }
}

/// The text of an alpha holds no comma.
pub proof fn lemma_alpha_text(parts: int)
    requires
        0 <= parts <= 65535,
    ensures
        alpha_text_of(parts).len() >= 1,
        forall|at: int|
            0 <= at < alpha_text_of(parts).len() ==> #[trigger] alpha_text_of(parts)[at] != 44,
{
    if parts < 65535 {
        let digits = six_digits_of(millionths_of(parts));
        let written = alpha_text_of(parts);
        assert(written.len() == 8);
        assert forall|at: int| 0 <= at < 8 implies #[trigger] written[at] != 44 by {
            if at >= 2 {
                assert(written[at] == digits[at - 2]);
            }
        }
    }
}

/// `rgba(`.
pub open spec fn opening() -> Seq<u8> {
    seq![114u8, 103u8, 98u8, 97u8, 40u8]
}

/// A comma and a space.
pub open spec fn parting() -> Seq<u8> {
    seq![44u8, 32u8]
}

/// `)`.
pub open spec fn closing() -> Seq<u8> {
    seq![41u8]
}

/// Whether `text` is the opening, the four fields with a parting between
/// them, and the closing.
pub open spec fn laid_out(
    text: Seq<u8>,
    red: Seq<u8>,
    green: Seq<u8>,
    blue: Seq<u8>,
    alpha: Seq<u8>,
) -> bool {
    let comma_one: int = 5 + red.len() as int;
    let comma_two: int = comma_one + 2 + green.len();
    let comma_three: int = comma_two + 2 + blue.len();
    let close: int = comma_three + 2 + alpha.len();
    &&& text.len() == close + 1
    &&& text.subrange(0, 5) == opening()
    &&& text.subrange(5, comma_one) == red
    &&& text.subrange(comma_one, comma_one + 2) == parting()
    &&& text.subrange(comma_one + 2, comma_two) == green
    &&& text.subrange(comma_two, comma_two + 2) == parting()
    &&& text.subrange(comma_two + 2, comma_three) == blue
    &&& text.subrange(comma_three, comma_three + 2) == parting()
    &&& text.subrange(comma_three + 2, close) == alpha
    &&& text.subrange(close, close + 1) == closing()
}

/// What is appended to a text leaves its parts as they are.
pub proof fn lemma_head_kept(head: Seq<u8>, tail: Seq<u8>, from: int, to: int)
    requires
        0 <= from <= to <= head.len(),
    ensures
        (head + tail).subrange(from, to) == head.subrange(from, to),
{
    assert((head + tail).subrange(from, to) =~= head.subrange(from, to));
}

/// What is appended to a text is found behind it.
pub proof fn lemma_tail_found(head: Seq<u8>, tail: Seq<u8>)
    ensures
        (head + tail).subrange(head.len() as int, (head.len() + tail.len()) as int) == tail,
        (head + tail).len() == head.len() + tail.len(),
{
    assert((head + tail).subrange(head.len() as int, (head.len() + tail.len()) as int) =~= tail);
}

/// The pieces of a text, joined in their order, are laid out as a text
/// should be.
pub proof fn lemma_layout(red: Seq<u8>, green: Seq<u8>, blue: Seq<u8>, alpha: Seq<u8>)
    ensures
        laid_out(
            opening() + red + parting() + green + parting() + blue + parting() + alpha + closing(),
            red,
            green,
            blue,
            alpha,
        ),
{
    let zeroth = opening();
    let first = zeroth + red;
    let second = first + parting();
    let third = second + green;
    let fourth = third + parting();
    let fifth = fourth + blue;
    let sixth = fifth + parting();
    let seventh = sixth + alpha;
    let text = seventh + closing();
    let comma_one: int = 5 + red.len() as int;
    let comma_two: int = comma_one + 2 + green.len();
    let comma_three: int = comma_two + 2 + blue.len();
    let close: int = comma_three + 2 + alpha.len();
    lemma_tail_found(zeroth, red);
    lemma_tail_found(first, parting());
    lemma_tail_found(second, green);
    lemma_tail_found(third, parting());
    lemma_tail_found(fourth, blue);
    lemma_tail_found(fifth, parting());
    lemma_tail_found(sixth, alpha);
    lemma_tail_found(seventh, closing());
    assert(zeroth.subrange(0, 5) =~= zeroth);
    lemma_carried(
        zeroth,
        red,
        parting(),
        green,
        parting(),
        blue,
        parting(),
        alpha,
        closing(),
        0,
        5,
        0,
    );
    lemma_carried(
        zeroth,
        red,
        parting(),
        green,
        parting(),
        blue,
        parting(),
        alpha,
        closing(),
        5,
        comma_one,
        1,
    );
    lemma_carried(
        zeroth,
        red,
        parting(),
        green,
        parting(),
        blue,
        parting(),
        alpha,
        closing(),
        comma_one,
        comma_one + 2,
        2,
    );
    lemma_carried(
        zeroth,
        red,
        parting(),
        green,
        parting(),
        blue,
        parting(),
        alpha,
        closing(),
        comma_one + 2,
        comma_two,
        3,
    );
    lemma_carried(
        zeroth,
        red,
        parting(),
        green,
        parting(),
        blue,
        parting(),
        alpha,
        closing(),
        comma_two,
        comma_two + 2,
        4,
    );
    lemma_carried(
        zeroth,
        red,
        parting(),
        green,
        parting(),
        blue,
        parting(),
        alpha,
        closing(),
        comma_two + 2,
        comma_three,
        5,
    );
    lemma_carried(
        zeroth,
        red,
        parting(),
        green,
        parting(),
        blue,
        parting(),
        alpha,
        closing(),
        comma_three,
        comma_three + 2,
        6,
    );
    lemma_carried(
        zeroth,
        red,
        parting(),
        green,
        parting(),
        blue,
        parting(),
        alpha,
        closing(),
        comma_three + 2,
        close,
        7,
    );
}

/// A part that lies inside the first pieces of a text lies in the whole
/// text as it lies in those pieces.
pub proof fn lemma_carried(
    zeroth: Seq<u8>,
    one: Seq<u8>,
    two: Seq<u8>,
    three: Seq<u8>,
    four: Seq<u8>,
    five: Seq<u8>,
    six: Seq<u8>,
    seven: Seq<u8>,
    eight: Seq<u8>,
    from: int,
    to: int,
    pieces: int,
)
    requires
        0 <= from <= to,
        0 <= pieces <= 7,
        to <= (if pieces == 0 {
            zeroth
        } else if pieces == 1 {
            zeroth + one
        } else if pieces == 2 {
            zeroth + one + two
        } else if pieces == 3 {
            zeroth + one + two + three
        } else if pieces == 4 {
            zeroth + one + two + three + four
        } else if pieces == 5 {
            zeroth + one + two + three + four + five
        } else if pieces == 6 {
            zeroth + one + two + three + four + five + six
        } else {
            zeroth + one + two + three + four + five + six + seven
        }).len(),
    ensures
        (zeroth + one + two + three + four + five + six + seven + eight).subrange(from, to) == (
        if pieces == 0 {
            zeroth
        } else if pieces == 1 {
            zeroth + one
        } else if pieces == 2 {
            zeroth + one + two
        } else if pieces == 3 {
            zeroth + one + two + three
        } else if pieces == 4 {
            zeroth + one + two + three + four
        } else if pieces == 5 {
            zeroth + one + two + three + four + five
        } else if pieces == 6 {
            zeroth + one + two + three + four + five + six
        } else {
            zeroth + one + two + three + four + five + six + seven
        }).subrange(from, to),
{
    let first = zeroth + one;
    let second = first + two;
    let third = second + three;
    let fourth = third + four;
    let fifth = fourth + five;
    let sixth = fifth + six;
    let seventh = sixth + seven;
    lemma_head_kept(seventh, eight, from, to);
    if pieces <= 6 {
        lemma_head_kept(sixth, seven, from, to);
    }
    if pieces <= 5 {
        lemma_head_kept(fifth, six, from, to);
    }
    if pieces <= 4 {
        lemma_head_kept(fourth, five, from, to);
    }
    if pieces <= 3 {
        lemma_head_kept(third, four, from, to);
    }
    if pieces <= 2 {
        lemma_head_kept(second, three, from, to);
    }
    if pieces <= 1 {
        lemma_head_kept(first, two, from, to);
    }
    if pieces <= 0 {
        lemma_head_kept(zeroth, one, from, to);
    }
}

/// A text that is laid out with the digits of three bytes and the text of
/// an alpha is read as the colour of these.
pub proof fn lemma_laid_out_reads(text: Seq<u8>, red: nat, green: nat, blue: nat, alpha: int)
    requires
        red <= 255,
        green <= 255,
        blue <= 255,
        0 <= alpha <= 65535,
        laid_out(text, digits_of(red), digits_of(green), digits_of(blue), alpha_text_of(alpha)),
    ensures
        parsed_of(text) == Ok::<Rgba, ParseError>(
            Rgba {
                red: FloatingComponent((red * 257) as u16),
                green: FloatingComponent((green * 257) as u16),
                blue: FloatingComponent((blue * 257) as u16),
                alpha: FloatingComponent(alpha as u16),
            },
        ),
{
    let reds = digits_of(red);
    let greens = digits_of(green);
    let blues = digits_of(blue);
    let alphas = alpha_text_of(alpha);
    lemma_digits(red);
    lemma_digits(green);
    lemma_digits(blue);
    lemma_alpha_text(alpha);
    let comma_one = 5 + reds.len() as int;
    let comma_two = comma_one + 2 + greens.len();
    let comma_three = comma_two + 2 + blues.len();
    let close = comma_three + 2 + alphas.len();
    assert(has_opening(text)) by {
        assert(text[0] == text.subrange(0, 5)[0]);
        assert(text[1] == text.subrange(0, 5)[1]);
        assert(text[2] == text.subrange(0, 5)[2]);
        assert(text[3] == text.subrange(0, 5)[3]);
        assert(text[4] == text.subrange(0, 5)[4]);
    }
    assert(text[close] == 41) by {
        assert(text[close] == text.subrange(close, close + 1)[0]);
    }
    assert(text[comma_one] == 44 && text[comma_one + 1] == 32) by {
        assert(text[comma_one] == text.subrange(comma_one, comma_one + 2)[0]);
        assert(text[comma_one + 1] == text.subrange(comma_one, comma_one + 2)[1]);
    }
    assert(text[comma_two] == 44 && text[comma_two + 1] == 32) by {
        assert(text[comma_two] == text.subrange(comma_two, comma_two + 2)[0]);
        assert(text[comma_two + 1] == text.subrange(comma_two, comma_two + 2)[1]);
    }
    assert(text[comma_three] == 44 && text[comma_three + 1] == 32) by {
        assert(text[comma_three] == text.subrange(comma_three, comma_three + 2)[0]);
        assert(text[comma_three + 1] == text.subrange(comma_three, comma_three + 2)[1]);
    }
    assert forall|at: int| 5 <= at < comma_one implies #[trigger] text[at] != 44 by {
        assert(text[at] == text.subrange(5, comma_one)[at - 5]);
    }
    assert forall|at: int| comma_one + 1 <= at < comma_two implies #[trigger] text[at] != 44 by {
        if at >= comma_one + 2 {
            assert(text[at] == text.subrange(comma_one + 2, comma_two)[at - comma_one - 2]);
        }
    }
    assert forall|at: int| comma_two + 1 <= at < comma_three implies #[trigger] text[at] != 44 by {
        if at >= comma_two + 2 {
            assert(text[at] == text.subrange(comma_two + 2, comma_three)[at - comma_two - 2]);
        }
    }
    assert forall|at: int| comma_three + 1 <= at < close implies #[trigger] text[at] != 44 by {
        if at >= comma_three + 2 {
            assert(text[at] == text.subrange(comma_three + 2, close)[at - comma_three - 2]);
        }
    }
    lemma_search_passes(text, 5, comma_one, close, 44);
    lemma_search_passes(text, comma_one + 1, comma_two, close, 44);
    lemma_search_passes(text, comma_two + 1, comma_three, close, 44);
    lemma_search_passes(text, comma_three + 1, close, close, 44);
    assert(next_byte(text, comma_one, close, 44) == comma_one);
    assert(next_byte(text, comma_two, close, 44) == comma_two);
    assert(next_byte(text, comma_three, close, 44) == comma_three);
    assert(next_byte(text, close, close, 44) == close);
    assert(commas_of(text) == (comma_one, comma_two, comma_three));
    assert(well_shaped(text));
    lemma_channel_reads_back(text, 5, 5, comma_one, red);
    lemma_channel_reads_back(text, comma_one + 1, comma_one + 2, comma_two, green);
    lemma_channel_reads_back(text, comma_two + 1, comma_two + 2, comma_three, blue);
    lemma_alpha_reads_back(text, comma_three + 1, close, alpha);
}

/// A colour that is written as text is read back from it, with red, green
/// and blue at their nearest bytes and alpha as it was.
pub proof fn lemma_text_reads_back(color: Rgba)
    ensures
        parsed_of(text_of(color)) == Ok::<Rgba, ParseError>(snapped_of(color)),
{
    let red = IntegerComponent::of_parts(color.red.0 as int).0 as nat;
    let green = IntegerComponent::of_parts(color.green.0 as int).0 as nat;
    let blue = IntegerComponent::of_parts(color.blue.0 as int).0 as nat;
    let alpha = color.alpha.0 as int;
    lemma_layout(digits_of(red), digits_of(green), digits_of(blue), alpha_text_of(alpha));
    assert(text_of(color) == opening() + digits_of(red) + parting() + digits_of(green) + parting()
        + digits_of(blue) + parting() + alpha_text_of(alpha) + closing());
    lemma_laid_out_reads(text_of(color), red, green, blue, alpha);
}

} // verus!

//! Building blocks of the rendered text: decimal numerals and cells padded
//! to a fixed width.

use vstd::prelude::*;

verus! {

/// `String::push` of the standard library: the character is appended at the
/// end and nothing else changes.
pub assume_specification[ String::push ](text: &mut String, ch: char)
    ensures
        final(text)@ == old(text)@.push(ch),
;

/// The character that stands for the decimal digit `digit`.
pub open spec fn digit_char(digit: nat) -> char
    recommends
        digit < 10,
{
    (0x30 + digit) as char
}

/// The decimal numeral of `n`, without sign or leading zeros.
pub open spec fn decimal_text(n: nat) -> Seq<char>
    decreases n,
{
    if n < 10 {
        seq![digit_char(n)]
    } else {
        decimal_text(n / 10).push(digit_char(n % 10))
    }
}

/// The decimal numeral of `i`, with a minus sign before a negative one.
pub open spec fn signed_decimal_text(i: int) -> Seq<char> {
    if i < 0 {
        seq!['-'] + decimal_text((-i) as nat)
    } else {
        decimal_text(i as nat)
    }
}

/// `hundredths / 100` as a numeral with exactly two decimal places.
pub open spec fn hundredths_text(hundredths: nat) -> Seq<char> {
    decimal_text(hundredths / 100) + seq![
        '.',
        digit_char((hundredths / 10) % 10),
        digit_char(hundredths % 10),
    ]
}

/// `count` spaces.
pub open spec fn spaces(count: nat) -> Seq<char> {
    Seq::new(count, |i: int| ' ')
}

/// `cell` aligned to the left in a field of `width` characters. A cell that
/// is longer than the field is kept whole.
pub open spec fn left_aligned(cell: Seq<char>, width: nat) -> Seq<char> {
    if cell.len() >= width {
        cell
    } else {
        cell + spaces((width - cell.len()) as nat)
    }
}

/// The character that stands for the decimal digit `digit`.
fn digit_to_char(digit: u8) -> (ch: char)
    requires
        digit < 10,
    ensures
        ch == digit_char(digit as nat),
{
    (0x30u8 + digit) as char
}

/// Appends the decimal numeral of `n`.
pub fn push_decimal(text: &mut String, n: u64)
    ensures
        final(text)@ == old(text)@ + decimal_text(n as nat),
    decreases n,
{
    if n >= 10 {
        push_decimal(text, n / 10);
    }
    text.push(digit_to_char((n % 10) as u8));
}

/// Appends the decimal numeral of `i`, with a minus sign before a negative
/// one.
pub fn push_signed_decimal(text: &mut String, i: i32)
    ensures
        final(text)@ == old(text)@ + signed_decimal_text(i as int),
{
    if i < 0 {
        text.push('-');
        let magnitude: u64 = (-(i as i64)) as u64;
        push_decimal(text, magnitude);
    } else {
        push_decimal(text, i as u64);
    }
}

/// Appends `hundredths / 100` as a numeral with exactly two decimal places.
pub fn push_hundredths(text: &mut String, hundredths: u32)
    ensures
        final(text)@ == old(text)@ + hundredths_text(hundredths as nat),
{
    push_decimal(text, (hundredths / 100) as u64);
    text.push('.');
    text.push(digit_to_char(((hundredths / 10) % 10) as u8));
    text.push(digit_to_char((hundredths % 10) as u8));
}

/// Appends `cell` and then as many spaces as it takes to fill a field of
/// `width` characters.
pub fn push_left_aligned(text: &mut String, cell: &str, width: usize)
    ensures
        final(text)@ == old(text)@ + left_aligned(cell@, width as nat),
{
    text.append(cell);
    let length: usize = cell.unicode_len();
    let mut filled: usize = length;
    while filled < width
        invariant
            length == cell@.len(),
            length <= filled,
            filled <= width || filled == length,
            text@ == old(text)@ + cell@ + spaces((filled - length) as nat),
        decreases width - filled,
    {
        text.push(' ');
        filled = filled + 1;
    }
}

} // verus!

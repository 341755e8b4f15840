//! Short lines of text that describe an animation's state, held in
//! fixed-capacity `heapless` strings, and the decimal numbers written into them.

use vstd::prelude::*;
use vstd::utf8::{encode_utf8, is_ascii_chars, is_ascii_chars_concat, is_ascii_chars_encode_utf8};

verus! {

/// `heapless::String`, a string of at most `N` bytes that lives inline.
#[verifier::external_type_specification]
#[verifier::external_body]
pub struct ExHeaplessString<const N: usize>(heapless::String<N>);

/// The characters that a line holds.
pub uninterp spec fn line_text(line: heapless::String<16>) -> Seq<char>;

/// The texts of the lines that a list holds, first to last.
pub uninterp spec fn lines_of(list: heapless::Vec<heapless::String<16>, 8>) -> Seq<Seq<char>>;

/// The number of bytes that a text takes in a line.
pub open spec fn byte_len(text: Seq<char>) -> nat {
    encode_utf8(text).len()
}

/// `heapless::String::new`: an empty line.
#[verifier::external_body]
pub(crate) fn line_new() -> (line: heapless::String<16>)
    ensures
        line_text(line) == Seq::<char>::empty(),
{
    heapless::String::new()
}

/// `heapless::String::push_str`: appends `part` if the line then takes at
/// most 16 bytes, and otherwise fails and leaves the line as it was.
#[verifier::external_body]
pub(crate) fn line_push_str(line: &mut heapless::String<16>, part: &str) -> (r: Result<(), ()>)
    ensures
        r is Ok <==> byte_len(line_text(*old(line))) + byte_len(part@) <= 16,
        r is Ok ==> line_text(*final(line)) == line_text(*old(line)) + part@,
        r is Err ==> line_text(*final(line)) == line_text(*old(line)),
{
    line.push_str(part)
}

/// `heapless::String::push`: appends `c` if the line then takes at most 16
/// bytes, and otherwise fails and leaves the line as it was.
#[verifier::external_body]
pub(crate) fn line_push(line: &mut heapless::String<16>, c: char) -> (r: Result<(), ()>)
    ensures
        r is Ok <==> byte_len(line_text(*old(line))) + byte_len(seq![c]) <= 16,
        r is Ok ==> line_text(*final(line)) == line_text(*old(line)).push(c),
        r is Err ==> line_text(*final(line)) == line_text(*old(line)),
{
    line.push(c)
}

/// `heapless::Vec::new`: an empty list of lines.
#[verifier::external_body]
pub(crate) fn lines_new() -> (list: heapless::Vec<heapless::String<16>, 8>)
    ensures
        lines_of(list) == Seq::<Seq<char>>::empty(),
{
    heapless::Vec::new()
}

/// `heapless::Vec::push`: appends the line if fewer than 8 are held, and hands
/// it back, leaving the list as it was, if the list is full.
#[verifier::external_body]
pub(crate) fn lines_push(
    list: &mut heapless::Vec<heapless::String<16>, 8>,
    line: heapless::String<16>,
) -> (r: Result<(), heapless::String<16>>)
    ensures
        r is Ok <==> lines_of(*old(list)).len() < 8,
        r is Ok ==> lines_of(*final(list)) == lines_of(*old(list)).push(line_text(line)),
        r matches Err(back) ==> line_text(back) == line_text(line) && lines_of(*final(list))
            == lines_of(*old(list)),
{
    list.push(line)
}

/// The character of a decimal digit.
pub open spec fn digit_char(d: int) -> char {
    (48 + d) as char
}

/// The decimal digits of a natural number, most significant first, without
/// leading zeros.
pub open spec fn digits(n: nat) -> Seq<char>
    decreases n,
{
    if n < 10 {
        seq![digit_char(n as int)]
    } else {
        digits(n / 10).push(digit_char((n % 10) as int))
    }
}

/// An integer in decimal, with a minus sign in front of a negative one.
pub open spec fn decimal(v: int) -> Seq<char> {
    if v < 0 {
        seq!['-'] + digits((-v) as nat)
    } else {
        digits(v as nat)
    }
}

/// A label followed by a number in decimal.
pub open spec fn labelled(label: Seq<char>, value: int) -> Seq<char> {
    label + decimal(value)
}

/// A decimal number is written in ASCII, with one digit for each power of ten
/// that it reaches.
pub proof fn lemma_digits(n: nat)
    ensures
        is_ascii_chars(digits(n)),
        digits(n).len() >= 1,
        n < 10 ==> digits(n).len() == 1,
        n < 100 ==> digits(n).len() <= 2,
        n < 1000 ==> digits(n).len() <= 3,
        n < 10000 ==> digits(n).len() <= 4,
        n < 100000 ==> digits(n).len() <= 5,
    decreases n,
{
    if n >= 10 {
        lemma_digits(n / 10);
    }
}

/// Appends the decimal digits of `n` to a line that has room for them.
fn push_digits(line: &mut heapless::String<16>, n: u32)
    requires
        is_ascii_chars(line_text(*old(line))),
        line_text(*old(line)).len() + digits(n as nat).len() <= 16,
    ensures
        line_text(*final(line)) == line_text(*old(line)) + digits(n as nat),
        is_ascii_chars(line_text(*final(line))),
    decreases n,
{
    if n >= 10 {
        push_digits(line, n / 10);
    }
    let c: char = (48u8 + (n % 10) as u8) as char;
    proof {
        let before = line_text(*line);
        is_ascii_chars_encode_utf8(before);
        is_ascii_chars_encode_utf8(seq![c]);
    }
    let _ = line_push(line, c);
}

/// A line that holds `label` followed by `value` in decimal.
pub(crate) fn labelled_line(label: &str, value: i32) -> (line: heapless::String<16>)
    requires
        is_ascii_chars(label@),
        label@.len() + decimal(value as int).len() <= 16,
    ensures
        line_text(line) == labelled(label@, value as int),
        byte_len(line_text(line)) <= 16,
{
    let mut line: heapless::String<16> = line_new();
    proof {
        is_ascii_chars_encode_utf8(label@);
    }
    let _ = line_push_str(&mut line, label);
    if value < 0 {
        proof {
            is_ascii_chars_encode_utf8(seq!['-']);
        }
        let _ = line_push(&mut line, '-');
        let magnitude: u32 = (-(value as i64)) as u32;
        push_digits(&mut line, magnitude);
    } else {
        push_digits(&mut line, value as u32);
    }
    proof {
        is_ascii_chars_encode_utf8(line_text(line));
    }
    line
}

} // verus!

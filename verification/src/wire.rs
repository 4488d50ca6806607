//! The text line that reports a reading to a network client:
//! temperature, a comma, humidity, a line feed.

use vstd::prelude::*;
use vstd::string::StringSliceAdditionalSpecFns;
use vstd::utf8::{encode_utf8, is_ascii_chars, is_ascii_chars_encode_utf8};
use crate::dht11::Reading;

verus! {

/// How many bytes a line buffer holds.
pub const LINE_CAPACITY: usize = 64;

/// A line of text in a fixed buffer of `LINE_CAPACITY` bytes, kept in a
/// `heapless::String`. Verus does not look inside: what is known of it is
/// what the functions below say about `line_bytes`.
#[verifier::external_body]
pub struct LineBuffer {
    inner: heapless::String<64>,
}

/// The bytes that a line buffer holds, in order.
pub uninterp spec fn line_bytes(line: LineBuffer) -> Seq<u8>;

/// The decimal digit `d`, for `0 <= d <= 9`.
pub open spec fn digit(d: int) -> char {
    if d == 0 {
        '0'
    } else if d == 1 {
        '1'
    } else if d == 2 {
        '2'
    } else if d == 3 {
        '3'
    } else if d == 4 {
        '4'
    } else if d == 5 {
        '5'
    } else if d == 6 {
        '6'
    } else if d == 7 {
        '7'
    } else if d == 8 {
        '8'
    } else {
        '9'
    }
}

/// The decimal digits of `n`, most significant first, without leading zeros.
pub open spec fn digits(n: nat) -> Seq<char>
    decreases n,
{
    if n < 10 {
        seq![digit(n as int)]
    } else {
        digits(n / 10).push(digit((n % 10) as int))
    }
}

/// The decimal text of `v`: a minus sign where it is negative, then the
/// digits of its magnitude.
pub open spec fn decimal(v: int) -> Seq<char> {
    if v < 0 {
        seq!['-'] + digits((-v) as nat)
    } else {
        digits(v as nat)
    }
}

/// The line that reports `reading`.
pub open spec fn line_of(reading: Reading) -> Seq<char> {
    decimal(reading.temperature as int) + seq![','] + decimal(reading.humidity as int) + seq!['\n']
}

/// A text of ASCII characters as bytes.
pub open spec fn ascii(text: Seq<char>) -> Seq<u8> {
    Seq::new(text.len(), |i: int| text[i] as u8)
}

/// `itoa::Buffer::format` on an `i8`: the number in decimal, as `decimal`
/// spells it out.
#[verifier::external_body]
fn decimal_text(value: i8) -> (text: String)
    ensures
        text@ == decimal(value as int),
{
    itoa::Buffer::new().format(value).to_string()
}

/// `heapless::String::new`: an empty buffer.
#[verifier::external_body]
fn line_new() -> (line: LineBuffer)
    ensures
        line_bytes(line) == Seq::<u8>::empty(),
{
    LineBuffer { inner: heapless::String::new() }
}

/// `heapless::String::clear`: the buffer is empty afterwards.
#[verifier::external_body]
fn line_clear(line: &mut LineBuffer)
    ensures
        line_bytes(*final(line)) == Seq::<u8>::empty(),
{
    line.inner.clear()
}

/// `heapless::String::push_str`: appends the bytes of `text` if they fit in
/// what is left of the capacity, and reports whether they did; a text that
/// does not fit leaves the buffer as it was.
#[verifier::external_body]
fn line_push_str(line: &mut LineBuffer, text: &str) -> (pushed: bool)
    ensures
        pushed == (line_bytes(*old(line)).len() + text.spec_bytes().len() <= LINE_CAPACITY),
        pushed ==> line_bytes(*final(line)) == line_bytes(*old(line)) + text.spec_bytes(),
        !pushed ==> line_bytes(*final(line)) == line_bytes(*old(line)),
{
    line.inner.push_str(text).is_ok()
}

/// `heapless::String::push`: appends the UTF-8 bytes of `c` if they fit in
/// what is left of the capacity, and reports whether they did; a character
/// that does not fit leaves the buffer as it was.
#[verifier::external_body]
fn line_push(line: &mut LineBuffer, c: char) -> (pushed: bool)
    ensures
        pushed == (line_bytes(*old(line)).len() + encode_utf8(seq![c]).len() <= LINE_CAPACITY),
        pushed ==> line_bytes(*final(line)) == line_bytes(*old(line)) + encode_utf8(seq![c]),
        !pushed ==> line_bytes(*final(line)) == line_bytes(*old(line)),
{
    line.inner.push(c).is_ok()
}

/// `heapless::String::as_str`, copied out: the bytes that the buffer holds.
#[verifier::external_body]
fn line_copy(line: &LineBuffer) -> (bytes: Vec<u8>)
    ensures
        bytes@ == line_bytes(*line),
{
    line.inner.as_str().as_bytes().to_vec()
}

/// The digits of a number below a thousand are one to three ASCII characters.
pub proof fn lemma_digits_short(n: nat)
    requires
        n < 1000,
    ensures
        1 <= digits(n).len() <= 3,
        is_ascii_chars(digits(n)),
{
    reveal_with_fuel(digits, 3);
}

/// The decimal text of an eight-bit number is one to four ASCII characters.
pub proof fn lemma_decimal_short(v: int)
    requires
        -128 <= v <= 127,
    ensures
        1 <= decimal(v).len() <= 4,
        is_ascii_chars(decimal(v)),
        encode_utf8(decimal(v)) == ascii(decimal(v)),
{
    if v < 0 {
        lemma_digits_short((-v) as nat);
    } else {
        lemma_digits_short(v as nat);
    }
    is_ascii_chars_encode_utf8(decimal(v));
    assert(encode_utf8(decimal(v)) =~= ascii(decimal(v)));
}

/// A line is at most ten ASCII characters long, so it fits any buffer of
/// `LINE_CAPACITY` bytes.
pub proof fn lemma_line_fits(reading: Reading)
    ensures
        4 <= line_of(reading).len() <= 10,
        line_of(reading).len() <= LINE_CAPACITY,
        is_ascii_chars(line_of(reading)),
{
    lemma_decimal_short(reading.temperature as int);
    lemma_decimal_short(reading.humidity as int);
}

impl LineBuffer {
    /// An empty buffer.
    pub fn new() -> (line: LineBuffer)
        ensures
            line_bytes(line) == Seq::<u8>::empty(),
    {
        line_new()
    }

    /// The bytes of the line.
    pub fn to_vec(&self) -> (bytes: Vec<u8>)
        ensures
            bytes@ == line_bytes(*self),
    {
        line_copy(self)
    }
}

/// Writes the line that reports `reading` into `line`, in place of what it
/// held: temperature and humidity in decimal, a comma between them, a line
/// feed at the end.
pub fn write_reading_line(reading: Reading, line: &mut LineBuffer)
    ensures
        line_bytes(*final(line)) == ascii(line_of(reading)),
{
    proof {
        lemma_decimal_short(reading.temperature as int);
        lemma_decimal_short(reading.humidity as int);
        is_ascii_chars_encode_utf8(seq![',']);
        is_ascii_chars_encode_utf8(seq!['\n']);
        assert(encode_utf8(seq![',']) =~= ascii(seq![',']));
        assert(encode_utf8(seq!['\n']) =~= ascii(seq!['\n']));
    }
    line_clear(line);
    let temperature = decimal_text(reading.temperature);
    let humidity = decimal_text(reading.humidity);
    let fits = line_push_str(line, temperature.as_str());
    assert(fits);
    let fits = line_push(line, ',');
    assert(fits);
    let fits = line_push_str(line, humidity.as_str());
    assert(fits);
    let fits = line_push(line, '\n');
    assert(fits);
    assert(line_bytes(*line) =~= ascii(line_of(reading)));
}

/// The line that reports `reading`, in a buffer of its own.
pub fn reading_line(reading: Reading) -> (line: LineBuffer)
    ensures
        line_bytes(line) == ascii(line_of(reading)),
{
    let mut line = line_new();
    write_reading_line(reading, &mut line);
    line
}

} // verus!

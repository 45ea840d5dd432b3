//! Text renderings of bytes and integers, and the conversions between bytes
//! and text that every tool uses on its input and output.

use vstd::prelude::*;
use vstd::string::StrSliceExecFns;
use vstd::utf8::{decode_utf8, encode_utf8, valid_utf8};

verus! {

/// The digit of a value below sixteen, lower case.
pub open spec fn digit_char(n: int) -> char {
    if n == 0 { '0' } else if n == 1 { '1' } else if n == 2 { '2' } else if n == 3 { '3' }
    else if n == 4 { '4' } else if n == 5 { '5' } else if n == 6 { '6' } else if n == 7 { '7' }
    else if n == 8 { '8' } else if n == 9 { '9' } else if n == 10 { 'a' } else if n == 11 { 'b' }
    else if n == 12 { 'c' } else if n == 13 { 'd' } else if n == 14 { 'e' } else { 'f' }
}

/// The decimal digits of `n`, most significant first, without leading
/// zeros; zero is the single digit `0`.
pub open spec fn decimal_text(n: nat) -> Seq<char>
    decreases n,
{
    if n < 10 {
        seq![digit_char(n as int)]
    } else {
        decimal_text(n / 10).push(digit_char((n % 10) as int))
    }
}

/// The decimal text of an integer: a minus sign before the digits of a
/// negative one.
pub open spec fn signed_decimal_text(i: int) -> Seq<char> {
    if i < 0 {
        seq!['-'] + decimal_text((-i) as nat)
    } else {
        decimal_text(i as nat)
    }
}

/// The lower-case hexadecimal digits of `n`, most significant first,
/// without a prefix or leading zeros; zero is the single digit `0`.
pub open spec fn lower_hex_text(n: nat) -> Seq<char>
    decreases n,
{
    if n < 16 {
        seq![digit_char(n as int)]
    } else {
        lower_hex_text(n / 16).push(digit_char((n % 16) as int))
    }
}

/// The lower-case hexadecimal text of a byte string: two digits per byte,
/// the high nibble first.
pub open spec fn hex_text(bytes: Seq<u8>) -> Seq<char> {
    Seq::new(
        2 * bytes.len(),
        |i: int|
            if i % 2 == 0 {
                digit_char(bytes[i / 2] as int / 16)
            } else {
                digit_char(bytes[i / 2] as int % 16)
            },
    )
}

/// The text `true` or `false`.
pub open spec fn bool_text(b: bool) -> Seq<char> {
    if b {
        seq!['t', 'r', 'u', 'e']
    } else {
        seq!['f', 'a', 'l', 's', 'e']
    }
}

/// Whether a character has the Unicode property `White_Space`.
pub open spec fn is_whitespace(c: char) -> bool {
    let u = c as u32;
    ||| 0x09 <= u <= 0x0d
    ||| u == 0x20
    ||| u == 0x85
    ||| u == 0xa0
    ||| u == 0x1680
    ||| 0x2000 <= u <= 0x200a
    ||| u == 0x2028
    ||| u == 0x2029
    ||| u == 0x202f
    ||| u == 0x205f
    ||| u == 0x3000
}

/// `text` without its trailing whitespace.
pub open spec fn trimmed_end(text: Seq<char>) -> Seq<char>
    decreases text.len(),
{
    if text.len() > 0 && is_whitespace(text.last()) {
        trimmed_end(text.drop_last())
    } else {
        text
    }
}

/// `text` without its leading whitespace.
pub open spec fn trimmed_start(text: Seq<char>) -> Seq<char>
    decreases text.len(),
{
    if text.len() > 0 && is_whitespace(text.first()) {
        trimmed_start(text.drop_first())
    } else {
        text
    }
}

/// `text` without leading and trailing whitespace.
pub open spec fn trimmed(text: Seq<char>) -> Seq<char> {
    trimmed_end(trimmed_start(text))
}

/// Calls `hex::encode`, which renders each byte as two lower-case
/// hexadecimal digits, high nibble first.
#[verifier::external_body]
pub(crate) fn hex_encode(bytes: &[u8]) -> (text: String)
    ensures
        text@ == hex_text(bytes@),
{
    hex::encode(bytes)
}

/// Calls `String::from_utf8`, which succeeds exactly on well-formed UTF-8
/// and then holds the characters that the bytes encode.
#[verifier::external_body]
pub(crate) fn string_from_utf8(bytes: Vec<u8>) -> (r: Option<String>)
    ensures
        r is Some <==> valid_utf8(bytes@),
        r matches Some(s) ==> s@ == decode_utf8(bytes@),
{
    String::from_utf8(bytes).ok()
}

/// Collects `str::chars` into a vector: the characters of the text in
/// order.
#[verifier::external_body]
pub(crate) fn str_chars(text: &str) -> (chars: Vec<char>)
    ensures
        chars@ == text@,
{
    text.chars().collect()
}

/// Collects characters into a `String` with `String::from_iter`: the text
/// of exactly those characters in order.
#[verifier::external_body]
pub(crate) fn chars_string(chars: &[char]) -> (text: String)
    ensures
        text@ == chars@,
{
    String::from_iter(chars.iter())
}

/// The digit of a value below sixteen, lower case.
pub fn digit(n: u8) -> (c: char)
    requires
        n < 16,
    ensures
        c == digit_char(n as int),
{
    if n == 0 { '0' } else if n == 1 { '1' } else if n == 2 { '2' } else if n == 3 { '3' }
    else if n == 4 { '4' } else if n == 5 { '5' } else if n == 6 { '6' } else if n == 7 { '7' }
    else if n == 8 { '8' } else if n == 9 { '9' } else if n == 10 { 'a' } else if n == 11 { 'b' }
    else if n == 12 { 'c' } else if n == 13 { 'd' } else if n == 14 { 'e' } else { 'f' }
}

fn decimal_digits(n: u128) -> (digits: Vec<char>)
    ensures
        digits@ == decimal_text(n as nat),
    decreases n,
{
    if n < 10 {
        let mut digits: Vec<char> = Vec::new();
        digits.push(digit(n as u8));
        assert(digits@ =~= seq![digit_char(n as int)]);
        digits
    } else {
        let mut digits = decimal_digits(n / 10);
        digits.push(digit((n % 10) as u8));
        digits
    }
}

fn hex_digits(n: u64) -> (digits: Vec<char>)
    ensures
        digits@ == lower_hex_text(n as nat),
    decreases n,
{
    if n < 16 {
        let mut digits: Vec<char> = Vec::new();
        digits.push(digit(n as u8));
        assert(digits@ =~= seq![digit_char(n as int)]);
        digits
    } else {
        let mut digits = hex_digits(n / 16);
        digits.push(digit((n % 16) as u8));
        digits
    }
}

/// The decimal text of an unsigned integer.
pub fn format_decimal(n: u64) -> (text: String)
    ensures
        text@ == decimal_text(n as nat),
{
    let digits = decimal_digits(n as u128);
    chars_string(digits.as_slice())
}

/// The decimal text of a signed integer, with a minus sign before a
/// negative one.
pub fn format_signed(i: i128) -> (text: String)
    ensures
        text@ == signed_decimal_text(i as int),
{
    if i >= 0 {
        let digits = decimal_digits(i as u128);
        chars_string(digits.as_slice())
    } else {
        let magnitude: u128 = if i == i128::MIN {
            0x8000_0000_0000_0000_0000_0000_0000_0000u128
        } else {
            (-i) as u128
        };
        let mut digits = decimal_digits(magnitude);
        digits.insert(0, '-');
        assert(digits@ =~= seq!['-'] + decimal_text((-i) as nat));
        chars_string(digits.as_slice())
    }
}

/// The lower-case hexadecimal text of an unsigned integer, without a
/// prefix.
pub fn format_lower_hex(n: u64) -> (text: String)
    ensures
        text@ == lower_hex_text(n as nat),
{
    let digits = hex_digits(n);
    chars_string(digits.as_slice())
}

/// Whether a character has the Unicode property `White_Space`.
pub fn whitespace(c: char) -> (b: bool)
    ensures
        b == is_whitespace(c),
{
    let u = c as u32;
    (0x09 <= u && u <= 0x0d) || u == 0x20 || u == 0x85 || u == 0xa0 || u == 0x1680 || (0x2000 <= u
        && u <= 0x200a) || u == 0x2028 || u == 0x2029 || u == 0x202f || u == 0x205f || u == 0x3000
}

proof fn lemma_trimmed_end(text: Seq<char>, end: int)
    requires
        0 <= end <= text.len(),
        forall|i: int| end <= i < text.len() ==> is_whitespace(text[i]),
        end > 0 ==> !is_whitespace(text[end - 1]),
    ensures
        trimmed_end(text) == text.take(end),
    decreases text.len() - end,
{
    if end < text.len() {
        let shorter = text.drop_last();
        assert forall|i: int| end <= i < shorter.len() implies is_whitespace(shorter[i]) by {
            assert(shorter[i] == text[i]);
        }
        if end > 0 {
            assert(shorter[end - 1] == text[end - 1]);
        }
        lemma_trimmed_end(shorter, end);
        assert(shorter.take(end) =~= text.take(end));
    } else {
        assert(text.take(end) =~= text);
    }
}

proof fn lemma_trimmed_start(text: Seq<char>, start: int)
    requires
        0 <= start <= text.len(),
        forall|i: int| 0 <= i < start ==> is_whitespace(text[i]),
        start < text.len() ==> !is_whitespace(text[start]),
    ensures
        trimmed_start(text) == text.skip(start),
    decreases start,
{
    if start > 0 {
        let shorter = text.drop_first();
        assert forall|i: int| 0 <= i < start - 1 implies is_whitespace(shorter[i]) by {
            assert(shorter[i] == text[i + 1]);
        }
        if start < text.len() {
            assert(shorter[start - 1] == text[start]);
        }
        lemma_trimmed_start(shorter, start - 1);
        assert(shorter.skip(start - 1) =~= text.skip(start));
    } else {
        assert(text.skip(0) =~= text);
    }
}

/// `text` without its trailing whitespace.
pub fn trim_end(text: &str) -> (r: String)
    ensures
        r@ == trimmed_end(text@),
{
    let chars = str_chars(text);
    let mut end: usize = chars.len();
    while end > 0 && whitespace(chars[end - 1])
        invariant
            end <= chars.len(),
            forall|i: int| end <= i < chars@.len() ==> is_whitespace(chars@[i]),
        decreases end,
    {
        end -= 1;
    }
    proof {
        lemma_trimmed_end(chars@, end as int);
        assert(chars@.take(end as int) =~= chars@.subrange(0, end as int));
    }
    chars_string(vstd::slice::slice_subrange(chars.as_slice(), 0, end))
}

/// `text` without leading and trailing whitespace.
pub fn trim(text: &str) -> (r: String)
    ensures
        r@ == trimmed(text@),
{
    let chars = str_chars(text);
    let mut start: usize = 0;
    while start < chars.len() && whitespace(chars[start])
        invariant
            start <= chars.len(),
            forall|i: int| 0 <= i < start ==> is_whitespace(chars@[i]),
        decreases chars.len() - start,
    {
        start += 1;
    }
    let mut end: usize = chars.len();
    while end > start && whitespace(chars[end - 1])
        invariant
            start <= end <= chars.len(),
            forall|i: int| end <= i < chars@.len() ==> is_whitespace(chars@[i]),
        decreases end,
    {
        end -= 1;
    }
    proof {
        lemma_trimmed_start(chars@, start as int);
        let rest = chars@.skip(start as int);
        assert forall|i: int| end - start <= i < rest.len() implies is_whitespace(rest[i]) by {
            assert(rest[i] == chars@[start + i]);
        }
        if end > start {
            assert(rest[end - start - 1] == chars@[end - 1]);
        }
        lemma_trimmed_end(rest, end - start);
        assert(rest.take(end - start) =~= chars@.subrange(start as int, end as int));
    }
    chars_string(vstd::slice::slice_subrange(chars.as_slice(), start, end))
}

/// Hexadecimal text of `bytes`.
pub fn to_hex(bytes: &[u8]) -> (text: String)
    ensures
        text@ == hex_text(bytes@),
{
    hex_encode(bytes)
}

/// The UTF-8 encoding of `text`.
pub fn text_bytes(text: &str) -> (bytes: Vec<u8>)
    ensures
        bytes@ == encode_utf8(text@),
{
    text.as_bytes_vec()
}

/// The text that `bytes` encode in UTF-8, if they are well formed.
pub fn bytes_text(bytes: Vec<u8>) -> (r: Option<String>)
    ensures
        r is Some <==> valid_utf8(bytes@),
        r matches Some(s) ==> s@ == decode_utf8(bytes@),
{
    string_from_utf8(bytes)
}

/// `text` followed by a line feed.
pub fn with_line_feed(text: String) -> (r: String)
    ensures
        r@ == text@.push('\n'),
{
    let r = text.concat("\n");
    proof {
        reveal_strlit("\n");
        assert("\n"@ =~= seq!['\n']);
        assert(text@ + seq!['\n'] =~= text@.push('\n'));
    }
    r
}

} // verus!

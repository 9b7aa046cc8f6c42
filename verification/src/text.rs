//! Small text helpers: growing and shrinking a `String` by one character,
//! the width a text takes on screen, and decimal numerals.

use vstd::prelude::*;

verus! {

/// The number of cells a text is counted as when it is centred: the
/// number of bytes of its UTF-8 encoding, which for ASCII text is the number
/// of its characters.
pub open spec fn width_spec(text: Seq<char>) -> usize {
    vstd::utf8::encode_utf8(text).len() as usize
}

/// See [`width_spec`].
pub fn width(text: &String) -> (n: usize)
    ensures
        n == width_spec(text@),
{
    text.as_str().len()
}

/// Appends `c` to `text`.
///
/// Trusted: calls `String::push`, which std documents as appending the
/// given character to the end of the string.
#[verifier::external_body]
pub(crate) fn push_char(text: &mut String, c: char)
    ensures
        final(text)@ == old(text)@.push(c),
{
    text.push(c);
}

/// Removes the last character of `text` and returns it; `None`, with
/// `text` unchanged, when it is empty.
///
/// Trusted: calls `String::pop`, which std documents as removing the last
/// character from the string buffer and returning it, or `None` if the
/// string is empty.
#[verifier::external_body]
pub(crate) fn pop_char(text: &mut String) -> (c: Option<char>)
    ensures
        match c {
            Some(last) => {
                &&& old(text)@.len() > 0
                &&& last == old(text)@.last()
                &&& final(text)@ == old(text)@.drop_last()
            },
            None => old(text)@.len() == 0 && final(text)@ == old(text)@,
        },
{
    text.pop()
}

/// The character of the decimal digit `d`.
pub open spec fn digit_spec(d: nat) -> char
    recommends
        d < 10,
{
    ('0' as u8 + d) as char
}

/// The decimal numeral of `n`, most significant digit first, without
/// leading zeros.
pub open spec fn digits_spec(n: nat) -> Seq<char>
    decreases n,
{
    if n < 10 {
        seq![digit_spec(n)]
    } else {
        digits_spec(n / 10).push(digit_spec(n % 10))
    }
}

/// The decimal numeral of `n`, with a minus sign in front when it is
/// negative.
pub open spec fn decimal_spec(n: int) -> Seq<char> {
    if n < 0 {
        seq!['-'] + digits_spec((-n) as nat)
    } else {
        digits_spec(n as nat)
    }
}

/// Appends the decimal numeral of `n` to `text`.
pub fn push_digits(text: &mut String, n: u32)
    ensures
        final(text)@ == old(text)@ + digits_spec(n as nat),
    decreases n,
{
    if n >= 10 {
        push_digits(text, n / 10);
    }
    let d: u8 = (n % 10) as u8;
    push_char(text, (48u8 + d) as char);
    proof {
        if n >= 10 {
            assert(old(text)@ + digits_spec(n as nat) =~= (old(text)@ + digits_spec(
                (n / 10) as nat,
            )).push(digit_spec((n % 10) as nat)));
        } else {
            assert(old(text)@ + digits_spec(n as nat) =~= old(text)@.push(digit_spec(n as nat)));
        }
    }
}

/// Appends the decimal numeral of `n` to `text`, with its sign.
pub fn push_decimal(text: &mut String, n: i32)
    ensures
        final(text)@ == old(text)@ + decimal_spec(n as int),
{
    if n < 0 {
        push_char(text, '-');
        let magnitude: u32 = (-(n as i64)) as u32;
        push_digits(text, magnitude);
        assert(text@ =~= old(text)@ + decimal_spec(n as int));
    } else {
        push_digits(text, n as u32);
    }
}

} // verus!

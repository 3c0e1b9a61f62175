//! Text building blocks shared by the rest of the crate: comparison of string
//! slices, decimal numerals written and read, and lines made of parts with a
//! space between them.

use vstd::prelude::*;

verus! {

/// `str`'s `==` from the standard library: two slices are equal exactly when
/// they hold the same characters.
pub assume_specification[ <str as PartialEq>::eq ](a: &str, b: &str) -> (r: bool)
    ensures
        r == (a@ == b@),
;

/// `String::push` from the standard library: the character is appended at the
/// end and nothing else changes.
pub assume_specification[ String::push ](s: &mut String, c: char)
    ensures
        final(s)@ == old(s)@.push(c),
;

/// Whether two slices hold the same characters.
pub fn same(a: &str, b: &str) -> (r: bool)
    ensures
        r == (a@ == b@),
{
    *a == *b
}

/// The character that writes the decimal digit `d`.
pub open spec fn digit_char(d: nat) -> char
    recommends
        d < 10,
{
    ((48 + d) as u8) as char
}

/// The decimal numeral of `n`: no sign, no leading zero but for zero itself.
pub open spec fn decimal(n: nat) -> Seq<char>
    decreases n,
{
    if n < 10 {
        seq![digit_char(n)]
    } else {
        decimal(n / 10).push(digit_char(n % 10))
    }
}

/// The digit that a character writes, if it writes one.
pub open spec fn digit_value(c: char) -> Option<nat> {
    if 48 <= c as nat <= 57 {
        Some((c as nat - 48) as nat)
    } else {
        None
    }
}

/// The number that a text writes as a decimal numeral: the text is one digit
/// or more and nothing else. Zeros may lead.
pub open spec fn numeral_value(text: Seq<char>) -> Option<nat>
    decreases text.len(),
{
    if text.len() == 0 {
        None
    } else {
        match digit_value(text.last()) {
            None => None,
            Some(digit) => if text.len() == 1 {
                Some(digit)
            } else {
                match numeral_value(text.drop_last()) {
                    Some(front) => Some(10 * front + digit),
                    None => None,
                }
            },
        }
    }
}

/// The longest numeral that is read: that of the largest 64-bit number has
/// this many digits.
pub const NUMERAL_LIMIT: usize = 20;

/// The 64-bit number that a text writes: the value of the numeral, where the
/// text is one of no more than [`NUMERAL_LIMIT`] characters and the value
/// fits.
pub open spec fn numeral(text: Seq<char>) -> Option<u64> {
    if text.len() > NUMERAL_LIMIT {
        None
    } else {
        match numeral_value(text) {
            Some(value) => if value <= u64::MAX {
                Some(value as u64)
            } else {
                None
            },
            None => None,
        }
    }
}

/// `n` written with exactly two decimal digits.
pub open spec fn two_digits(n: nat) -> Seq<char>
    recommends
        n < 100,
{
    seq![digit_char(n / 10), digit_char(n % 10)]
}

/// The parts in their order, with one space between neighbours.
pub open spec fn spaced(parts: Seq<Seq<char>>) -> Seq<char>
    decreases parts.len(),
{
    if parts.len() == 0 {
        Seq::empty()
    } else if parts.len() == 1 {
        parts[0]
    } else {
        spaced(parts.drop_last()) + seq![' '] + parts.last()
    }
}

/// What each string of a list holds.
pub open spec fn texts(parts: Seq<String>) -> Seq<Seq<char>> {
    parts.map_values(|p: String| p@)
}

/// What a string holds, if there is one.
pub open spec fn text_of(part: Option<String>) -> Option<Seq<char>> {
    match part {
        Some(p) => Some(p@),
        None => None,
    }
}

/// The character of one decimal digit.
fn digit(d: u8) -> (c: char)
    requires
        d < 10,
    ensures
        c == digit_char(d as nat),
{
    (48u8 + d) as char
}

/// Appends the decimal numeral of `n` to `out`.
pub fn push_decimal(out: &mut String, n: u64)
    ensures
        final(out)@ == old(out)@ + decimal(n as nat),
    decreases n,
{
    if n >= 10 {
        push_decimal(out, n / 10);
    }
    out.push(digit((n % 10) as u8));
    proof {
        let head = old(out)@;
        if n >= 10 {
            assert(final(out)@ =~= head + decimal((n / 10) as nat).push(digit_char((n % 10) as nat)));
        } else {
            assert(final(out)@ =~= head + seq![digit_char(n as nat)]);
        }
    }
}

/// The decimal numeral of `n` as a string.
pub fn decimal_string(n: u64) -> (r: String)
    ensures
        r@ == decimal(n as nat),
{
    let mut out = String::new();
    push_decimal(&mut out, n);
    assert(out@ =~= decimal(n as nat));
    out
}

/// A numeral is worth no less than any part of it that it begins with, and
/// what begins with no numeral is none.
pub proof fn lemma_numeral_grows(text: Seq<char>, i: int)
    requires
        1 <= i <= text.len(),
        numeral_value(text) is Some,
    ensures
        numeral_value(text.take(i)) is Some,
        numeral_value(text.take(i)).unwrap() <= numeral_value(text).unwrap(),
    decreases text.len(),
{
    if i == text.len() {
        assert(text.take(i) =~= text);
    } else {
        assert(text.drop_last().take(i) =~= text.take(i));
        lemma_numeral_grows(text.drop_last(), i);
    }
}

/// What is written is read back: the decimal numeral of a number is worth
/// that number.
pub proof fn lemma_decimal_is_read_back(n: nat)
    ensures
        numeral_value(decimal(n)) == Some(n),
    decreases n,
{
    if n >= 10 {
        lemma_decimal_is_read_back(n / 10);
        let front = decimal(n / 10);
        assert(front.push(digit_char(n % 10)).drop_last() =~= front);
        assert(front.len() >= 1) by {
            lemma_decimal_is_not_empty(n / 10);
        }
    }
}

/// A numeral has a digit.
proof fn lemma_decimal_is_not_empty(n: nat)
    ensures
        decimal(n).len() >= 1,
    decreases n,
{
    if n >= 10 {
        lemma_decimal_is_not_empty(n / 10);
    }
}

/// The number that `text` writes as a decimal numeral, if it writes one that
/// fits 64 bits.
pub fn parse_decimal(text: &str) -> (r: Option<u64>)
    ensures
        r == numeral(text@),
{
    let len = text.unicode_len();
    if len == 0 || len > NUMERAL_LIMIT {
        return None;
    }
    let mut value: u64 = 0;
    let mut i: usize = 0;
    while i < len
        invariant
            i <= len == text@.len(),
            1 <= len <= NUMERAL_LIMIT,
            i == 0 ==> value == 0,
            i > 0 ==> numeral_value(text@.take(i as int)) == Some(value as nat),
        decreases len - i,
    {
        let code = text.get_char(i) as u32;
        proof {
            let front = text@.take(i as int);
            let next = text@.take(i + 1);
            assert(next.drop_last() =~= front);
            assert(next.last() == text@[i as int]);
            if numeral_value(text@) is Some {
                lemma_numeral_grows(text@, i + 1);
            }
        }
        if code < 48 || code > 57 {
            return None;
        }
        let digit: u64 = (code - 48) as u64;
        if value > (u64::MAX - digit) / 10 {
            return None;
        }
        value = 10 * value + digit;
        i += 1;
    }
    assert(text@.take(len as int) =~= text@);
    Some(value)
}

/// Joins the parts with single spaces.
pub fn join_spaced(parts: &Vec<String>) -> (r: String)
    ensures
        r@ == spaced(texts(parts@)),
{
    let ghost views = texts(parts@);
    let mut out = String::new();
    let mut i: usize = 0;
    while i < parts.len()
        invariant
            i <= parts.len(),
            views == texts(parts@),
            out@ == spaced(views.take(i as int)),
        decreases parts.len() - i,
    {
        if i > 0 {
            out.push(' ');
        }
        out.append(parts[i].as_str());
        proof {
            let before = views.take(i as int);
            let after = views.take(i + 1);
            assert(after.drop_last() =~= before);
            assert(after.last() == parts@[i as int]@);
            if i == 0 {
                assert(out@ =~= after[0]);
            } else {
                assert(out@ =~= spaced(before) + seq![' '] + after.last());
            }
        }
        i += 1;
    }
    assert(views.take(parts.len() as int) =~= views);
    out
}

} // verus!

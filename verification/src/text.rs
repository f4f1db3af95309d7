//! Small helpers on texts.

use vstd::prelude::*;

verus! {

/// The lower case form of a text, as `str::to_lowercase` gives it: the
/// lower case of every character by the rules of Unicode.
pub uninterp spec fn lowercase_of(text: Seq<char>) -> Seq<char>;

/// Calls `str::to_lowercase`. The result is a function of the text alone;
/// the contract names it.
#[verifier::external_body]
pub(crate) fn lowercase(text: &str) -> (r: String)
    ensures
        r@ == lowercase_of(text@),
{
    text.to_lowercase()
}

/// Whether two texts hold the same characters.
pub fn same_text(a: &str, b: &str) -> (r: bool)
    ensures
        r == (a@ == b@),
{
    let left: String = a.to_owned();
    let right: String = b.to_owned();
    left == right
}

/// The value of a decimal digit.
pub open spec fn decimal_digit(c: char) -> Option<u32> {
    if '0' <= c <= '9' {
        Some((c as u32 - '0' as u32) as u32)
    } else {
        None
    }
}

/// Every character of `s` is a decimal digit.
pub open spec fn all_decimal(s: Seq<char>) -> bool {
    forall|i: int| 0 <= i < s.len() ==> decimal_digit(#[trigger] s[i]) is Some
}

/// The number that the decimal digits of `s` write.
pub open spec fn decimal_value(s: Seq<char>) -> nat
    decreases s.len(),
{
    if s.len() == 0 {
        0
    } else {
        decimal_value(s.drop_last()) * 10 + decimal_digit(s.last())->0 as nat
    }
}

/// The digits of a number, without the plus sign that may stand before
/// them.
pub open spec fn unsigned_part(s: Seq<char>) -> Seq<char> {
    if s.len() > 0 && s[0] == '+' {
        s.drop_first()
    } else {
        s
    }
}

/// The number that `s` writes in decimal: one or more digits, after at most
/// one plus sign, that write a number of 32 bits.
pub open spec fn parse_decimal_spec(s: Seq<char>) -> Option<u32> {
    let digits = unsigned_part(s);
    if digits.len() > 0 && all_decimal(digits) && decimal_value(digits) <= u32::MAX {
        Some(decimal_value(digits) as u32)
    } else {
        None
    }
}

/// The value of a decimal digit.
fn digit_of(c: char) -> (r: Option<u32>)
    ensures
        r == decimal_digit(c),
{
    let v: u32 = c as u32;
    if 48 <= v && v <= 57 {
        Some(v - 48)
    } else {
        None
    }
}

/// Reads a number of 32 bits in decimal notation: one or more digits, with
/// or without a plus sign before them.
pub fn parse_decimal(text: &str) -> (r: Option<u32>)
    ensures
        r == parse_decimal_spec(text@),
{
    let ghost digits = unsigned_part(text@);
    let ghost mut seen: int = 0;
    let mut value: u32 = 0;
    let mut first: bool = true;
    let mut any: bool = false;
    let mut overflow: bool = false;
    for c in it: text.chars()
        invariant
            it.seq() == text@,
            digits == unsigned_part(text@),
            first <==> it.index() == 0,
            any <==> seen > 0,
            seen == it.index() - if it.index() > 0 && text@[0] == '+' {
                1int
            } else {
                0int
            },
            0 <= seen <= digits.len(),
            all_decimal(digits.take(seen)),
            !overflow ==> value == decimal_value(digits.take(seen)),
            overflow ==> decimal_value(digits.take(seen)) > u32::MAX,
    {
        if first && c == '+' {
            first = false;
            assert(digits.take(0) =~= Seq::<char>::empty());
        } else {
            first = false;
            assert(digits[seen] == c);
            assert(digits.take(seen + 1).drop_last() =~= digits.take(seen));
            assert(digits.take(seen + 1).last() == c);
            let digit: u32 = match digit_of(c) {
                Some(digit) => digit,
                None => {
                    return None;
                },
            };
            assert forall|i: int| 0 <= i < seen + 1 implies decimal_digit(
                #[trigger] digits.take(seen + 1)[i],
            ) is Some by {
                if i < seen {
                    assert(digits.take(seen)[i] == digits.take(seen + 1)[i]);
                } else {
                    assert(digits.take(seen + 1)[i] == c);
                }
            }
            if !overflow {
                if value > (u32::MAX - digit) / 10 {
                    overflow = true;
                } else {
                    value = value * 10 + digit;
                }
            }
            any = true;
            proof {
                seen = seen + 1;
            }
        }
    }
    assert(digits.take(seen) =~= digits);
    if !any || overflow {
        None
    } else {
        Some(value)
    }
}

} // verus!

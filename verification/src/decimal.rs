//! Decimal notation for the numbers that appear in messages.

use vstd::prelude::*;
use vstd::string::*;

verus! {

/// The ten decimal digits, in order.
pub open spec fn digits() -> Seq<char> {
    seq!['0', '1', '2', '3', '4', '5', '6', '7', '8', '9']
}

/// The character that stands for the digit `d`.
pub open spec fn digit_char(d: nat) -> char
    recommends
        d < 10,
{
    digits()[d as int]
}

/// The value of a digit character; zero for any other character.
pub open spec fn digit_value(c: char) -> nat {
    if digits().contains(c) {
        digits().index_of(c) as nat
    } else {
        0
    }
}

/// Decimal notation of `n`: most significant digit first, no leading zero,
/// and the single digit `0` for zero.
pub open spec fn decimal(n: nat) -> Seq<char>
    decreases n,
{
    if n < 10 {
        seq![digit_char(n)]
    } else {
        decimal(n / 10).push(digit_char(n % 10))
    }
}

/// The number that a sequence of digits denotes.
pub open spec fn decimal_value(text: Seq<char>) -> nat
    decreases text.len(),
{
    if text.len() == 0 {
        0
    } else {
        10 * decimal_value(text.drop_last()) + digit_value(text.last())
    }
}

/// Decimal notation of a signed number: a minus sign before the digits of a
/// negative one.
pub open spec fn signed_decimal(i: int) -> Seq<char> {
    if i < 0 {
        seq!['-'] + decimal((-i) as nat)
    } else {
        decimal(i as nat)
    }
}

/// Each digit character reads back as the digit it stands for.
pub proof fn lemma_digit_reads_back(d: nat)
    requires
        d < 10,
    ensures
        digits().contains(digit_char(d)),
        digit_value(digit_char(d)) == d,
{
    let found: int = digits().index_of(digit_char(d));
    assert(digits()[found] == digits()[d as int]);
}

/// The notation of a number consists of digits only, has no leading zero
/// unless the number is zero, and denotes that number. Distinct numbers
/// therefore never share a notation.
pub proof fn lemma_decimal_reads_back(n: nat)
    ensures
        decimal(n).len() >= 1,
        forall|i: int| 0 <= i < decimal(n).len() ==> digits().contains(#[trigger] decimal(n)[i]),
        n > 0 ==> decimal(n)[0] != '0',
        decimal_value(decimal(n)) == n,
    decreases n,
{
    if n < 10 {
        lemma_digit_reads_back(n);
        let s = decimal(n);
        assert(s.drop_last() =~= Seq::<char>::empty());
        assert(decimal_value(s.drop_last()) == 0);
    } else {
        let head = decimal(n / 10);
        let s = decimal(n);
        lemma_decimal_reads_back(n / 10);
        lemma_digit_reads_back(n % 10);
        assert(s.drop_last() =~= head);
        assert(s.last() == digit_char(n % 10));
        assert(s[0] == head[0]);
        assert forall|i: int| 0 <= i < s.len() implies digits().contains(#[trigger] s[i]) by {
            if i < head.len() {
                assert(s[i] == head[i]);
            }
        }
    }
}

/// The one-character text for the digit `d`.
fn digit_text(d: u8) -> (text: &'static str)
    requires
        d < 10,
    ensures
        text@ == seq![digit_char(d as nat)],
{
    let all = "0123456789";
    proof {
        reveal_strlit("0123456789");
        assert(all@ =~= digits());
    }
    all.substring_ascii(d as usize, d as usize + 1)
}

/// Writes `n` in decimal notation.
pub fn format_decimal(n: u128) -> (text: String)
    ensures
        text@ == decimal(n as nat),
    decreases n,
{
    if n < 10 {
        String::from_str(digit_text(n as u8))
    } else {
        let mut text = format_decimal(n / 10);
        text.append(digit_text((n % 10) as u8));
        text
    }
}

/// Writes a signed number in decimal notation.
pub fn format_signed(i: i32) -> (text: String)
    ensures
        text@ == signed_decimal(i as int),
{
    if i < 0 {
        let magnitude: u128 = (-(i as i64)) as u128;
        let mut text = String::from_str("-");
        let tail = format_decimal(magnitude);
        text.append(tail.as_str());
        proof {
            reveal_strlit("-");
        }
        text
    } else {
        format_decimal(i as u128)
    }
}

} // verus!

//! Decimal text of unsigned integers, as the payments table stores the
//! amounts that are wider than its integer columns.

use vstd::prelude::*;

verus! {

/// The byte `0`.
pub const ZERO_DIGIT: u8 = 48;

/// The byte `+`.
pub const PLUS_SIGN: u8 = 43;

/// Whether a byte is one of `0` to `9`.
pub open spec fn is_digit(b: u8) -> bool {
    ZERO_DIGIT <= b <= ZERO_DIGIT + 9
}

/// Whether every byte of a text is a digit.
pub open spec fn all_digits(s: Seq<u8>) -> bool {
    forall|i: int| 0 <= i < s.len() ==> is_digit(#[trigger] s[i])
}

/// The number that a text of digits writes, most significant digit first.
pub open spec fn digits_value(s: Seq<u8>) -> nat
    decreases s.len(),
{
    if s.len() == 0 {
        0
    } else {
        digits_value(s.drop_last()) * 10 + (s.last() - ZERO_DIGIT) as nat
    }
}

/// A text without the `+` that may stand before its digits.
pub open spec fn unsigned_part(s: Seq<u8>) -> Seq<u8> {
    if s.len() > 0 && s[0] == PLUS_SIGN {
        s.skip(1)
    } else {
        s
    }
}

/// The number at most `max` that a text writes: one digit or more, after a
/// `+` or after nothing. Any other text writes no number.
pub open spec fn parse_decimal(s: Seq<u8>, max: nat) -> Option<nat> {
    let digits = unsigned_part(s);
    if digits.len() > 0 && all_digits(digits) && digits_value(digits) <= max {
        Some(digits_value(digits))
    } else {
        None
    }
}

/// The text of a number: its digits, most significant first, with no sign
/// and no zero before them.
pub open spec fn decimal_text(n: nat) -> Seq<u8>
    decreases n,
{
    if n < 10 {
        seq![(ZERO_DIGIT + n) as u8]
    } else {
        decimal_text(n / 10).push((ZERO_DIGIT + n % 10) as u8)
    }
}

/// A text of digits writes no less than each text that it begins with.
pub proof fn lemma_prefix_value(s: Seq<u8>, k: int)
    requires
        0 <= k <= s.len(),
        all_digits(s),
    ensures
        digits_value(s.take(k)) <= digits_value(s),
    decreases s.len() - k,
{
    if k < s.len() {
        lemma_prefix_value(s, k + 1);
        assert(s.take(k + 1).drop_last() =~= s.take(k));
        assert(is_digit(s[k]));
        assert(s.take(k + 1).last() == s[k]);
    } else {
        assert(s.take(k) =~= s);
    }
}

/// The text of a number is made of digits, and writes that number: what is
/// written is what is read.
pub proof fn lemma_decimal_round_trip(n: nat, max: nat)
    requires
        n <= max,
    ensures
        decimal_text(n).len() > 0,
        all_digits(decimal_text(n)),
        digits_value(decimal_text(n)) == n,
        parse_decimal(decimal_text(n), max) == Some(n),
    decreases n,
{
    if n < 10 {
        let s = decimal_text(n);
        assert(s.drop_last() =~= Seq::<u8>::empty());
        assert(digits_value(s.drop_last()) == 0);
        assert(s.last() == (ZERO_DIGIT + n) as u8);
    } else {
        lemma_decimal_round_trip(n / 10, max);
        let s = decimal_text(n);
        let t = decimal_text(n / 10);
        assert(s.drop_last() =~= t);
        assert(s.last() == (ZERO_DIGIT + n % 10) as u8);
        assert(s[0] == t[0]);
        assert(is_digit(t[0]));
        assert forall|i: int| 0 <= i < s.len() implies is_digit(#[trigger] s[i]) by {
            if i < t.len() {
                assert(s[i] == t[i]);
            }
        }
    }
    assert(is_digit(decimal_text(n)[0]));
}

/// Appends the text of `n` to `out`.
fn push_decimal(n: u128, out: &mut Vec<u8>)
    ensures
        final(out)@ == old(out)@ + decimal_text(n as nat),
    decreases n,
{
    if n >= 10 {
        push_decimal(n / 10, out);
    }
    let digit: u128 = n % 10;
    out.push(ZERO_DIGIT + digit as u8);
    assert(out@ =~= old(out)@ + decimal_text(n as nat));
}

/// The decimal text of `n`.
pub fn u128_to_text(n: u128) -> (r: Vec<u8>)
    ensures
        r@ == decimal_text(n as nat),
{
    let mut out: Vec<u8> = Vec::new();
    push_decimal(n, &mut out);
    assert(out@ =~= decimal_text(n as nat));
    out
}

/// The number that a text of digits writes, where it is at most `max`.
fn digits_to_u128(s: &Vec<u8>, start: usize, max: u128) -> (r: Option<u128>)
    requires
        start <= s@.len(),
    ensures
        ({
            let digits = s@.skip(start as int);
            r == if all_digits(digits) && digits_value(digits) <= max {
                Some(digits_value(digits) as u128)
            } else {
                None
            }
        }),
{
    let ghost digits = s@.skip(start as int);
    let mut value: u128 = 0;
    let mut i: usize = start;
    assert(digits.take(0) =~= Seq::<u8>::empty());
    while i < s.len()
        invariant
            start <= i <= s@.len(),
            digits == s@.skip(start as int),
            all_digits(digits.take(i - start)),
            value == digits_value(digits.take(i - start)),
            value <= max,
        decreases s@.len() - i,
    {
        let b = s[i];
        let ghost k = i - start;
        proof {
            assert(digits[k] == b);
            assert(digits.take(k + 1).drop_last() =~= digits.take(k));
            assert(digits.take(k + 1).last() == b);
        }
        if b < ZERO_DIGIT || b > ZERO_DIGIT + 9 {
            assert(!all_digits(digits));
            return None;
        }
        let d: u128 = (b - ZERO_DIGIT) as u128;
        proof {
            assert forall|j: int| 0 <= j < digits.take(k + 1).len() implies is_digit(
                #[trigger] digits.take(k + 1)[j],
            ) by {
                if j < k {
                    assert(digits.take(k)[j] == digits.take(k + 1)[j]);
                }
            }
            if all_digits(digits) {
                lemma_prefix_value(digits, k + 1);
            }
        }
        if d > max {
            assert(value * 10 + d > max);
            return None;
        }
        if value > (max - d) / 10 {
            // the digits so far already write more than `max`
            assert(value * 10 + d > max) by (nonlinear_arith)
                requires
                    value > (max - d) / 10,
                    d <= max,
            ;
            return None;
        }
        assert(value * 10 + d <= max) by (nonlinear_arith)
            requires
                value <= (max - d) / 10,
                d <= max,
        ;
        value = value * 10 + d;
        i += 1;
    }
    assert(digits.take(i - start) =~= digits);
    Some(value)
}

/// Reads a number at most `max` from its decimal text.
pub fn text_to_u128(s: &Vec<u8>, max: u128) -> (r: Option<u128>)
    ensures
        r == match parse_decimal(s@, max as nat) {
            Some(n) => Some(n as u128),
            None => None,
        },
{
    let start: usize = if s.len() > 0 && s[0] == PLUS_SIGN {
        1
    } else {
        0
    };
    if s.len() == start {
        return None;
    }
    assert(s@.skip(0) =~= s@);
    digits_to_u128(s, start, max)
}

} // verus!

//! Integers written in decimal.

use vstd::prelude::*;

use crate::strings::{chars_of, string_of};

verus! {

/// Tells whether a character is a decimal digit.
pub open spec fn is_digit(c: char) -> bool {
    '0' <= c && c <= '9'
}

/// The value of a decimal digit.
pub open spec fn digit_value(c: char) -> nat {
    (c as int - '0' as int) as nat
}

/// The digit of a value below ten.
pub open spec fn digit_char(d: nat) -> char {
    (d + '0' as nat) as char
}

/// Tells whether every character is a decimal digit.
pub open spec fn all_digits(s: Seq<char>) -> bool {
    forall|i: int| 0 <= i < s.len() ==> #[trigger] is_digit(s[i])
}

/// The number that a sequence of decimal digits denotes.
pub open spec fn digits_value(s: Seq<char>) -> nat
    decreases s.len(),
{
    if s.len() == 0 {
        0
    } else {
        digits_value(s.drop_last()) * 10 + digit_value(s.last())
    }
}

/// `s` without a leading plus sign.
pub open spec fn without_plus(s: Seq<char>) -> Seq<char> {
    if s.len() > 0 && s[0] == '+' {
        s.skip(1)
    } else {
        s
    }
}

/// The number that a text denotes: at least one digit, behind an optional plus sign.
pub open spec fn unsigned_value(s: Seq<char>) -> Option<nat> {
    let digits = without_plus(s);
    if digits.len() > 0 && all_digits(digits) {
        Some(digits_value(digits))
    } else {
        None
    }
}

/// The decimal digits of a number, without leading zeros.
pub open spec fn decimal(n: nat) -> Seq<char>
    decreases n,
{
    if n < 10 {
        seq![digit_char(n)]
    } else {
        decimal(n / 10).push(digit_char(n % 10))
    }
}

/// The decimal digits of a number, behind a minus sign if it is negative.
pub open spec fn signed_decimal(n: int) -> Seq<char> {
    if n < 0 {
        seq!['-'] + decimal((-n) as nat)
    } else {
        decimal(n as nat)
    }
}

/// What is written in decimal is read back as the same number.
pub proof fn decimal_is_read_back(n: nat)
    ensures
        decimal(n).len() > 0,
        all_digits(decimal(n)),
        digits_value(decimal(n)) == n,
        unsigned_value(decimal(n)) == Some(n),
    decreases n,
{
    reveal_with_fuel(digits_value, 2);
    if n < 10 {
        let s = seq![digit_char(n)];
        assert(s.drop_last() == Seq::<char>::empty());
        assert(s.last() == digit_char(n));
        assert(digits_value(s) == n);
    } else {
        decimal_is_read_back(n / 10);
        let s = decimal(n / 10).push(digit_char(n % 10));
        assert(s.drop_last() == decimal(n / 10));
        assert(s.last() == digit_char(n % 10));
        assert forall|i: int| 0 <= i < s.len() implies #[trigger] is_digit(s[i]) by {
            if i < s.len() - 1 {
                assert(is_digit(decimal(n / 10)[i]));
            }
        }
    }
    assert(is_digit(decimal(n)[0]));
}

/// A longer text of digits denotes no smaller number.
proof fn digits_value_grows(s: Seq<char>, i: int)
    requires
        0 <= i <= s.len(),
    ensures
        digits_value(s.take(i)) <= digits_value(s),
    decreases s.len() - i,
{
    if i < s.len() {
        digits_value_grows(s, i + 1);
        assert(s.take(i + 1).drop_last() == s.take(i));
    } else {
        assert(s.take(i) == s);
    }
}

/// Reads an unsigned number in decimal.
pub fn parse_u64(s: &str) -> (r: Option<u64>)
    ensures
        match r {
            Some(n) => unsigned_value(s@) == Some(n as nat),
            None => unsigned_value(s@) is None || unsigned_value(s@)->0 > u64::MAX,
        },
{
    let chars = chars_of(s);
    let start: usize = if chars.len() > 0 && chars[0] == '+' {
        1
    } else {
        0
    };
    let ghost digits = without_plus(s@);
    assert(digits == chars@.skip(start as int));
    if start == chars.len() {
        return None;
    }
    let mut n: u64 = 0;
    let mut i: usize = start;
    assert(digits.take(0) == Seq::<char>::empty());
    while i < chars.len()
        invariant
            start <= i <= chars@.len(),
            digits == without_plus(s@),
            digits == chars@.skip(start as int),
            start < chars@.len(),
            forall|j: int| 0 <= j < i - start ==> #[trigger] is_digit(digits[j]),
            n == digits_value(digits.take(i - start)),
        decreases chars@.len() - i,
    {
        let c = chars[i];
        assert(digits[i - start] == c);
        if !('0' <= c && c <= '9') {
            assert(!is_digit(digits[i - start]));
            return None;
        }
        let d: u64 = (c as u64) - ('0' as u64);
        proof {
            assert(digits.take(i - start + 1).drop_last() == digits.take(i - start));
            assert(digits_value(digits.take(i - start + 1)) == n * 10 + d);
            digits_value_grows(digits, i - start + 1);
        }
        if n > (u64::MAX - d) / 10 {
            assert(n * 10 + d > u64::MAX);
            return None;
        }
        n = n * 10 + d;
        i += 1;
    }
    assert(digits.take(chars@.len() - start) == digits);
    Some(n)
}

/// The number that a text denotes, with a sign in front of its digits or without one.
pub open spec fn signed_text_value(s: Seq<char>) -> Option<int> {
    if s.len() > 0 && s[0] == '-' {
        let digits = s.skip(1);
        if digits.len() > 0 && all_digits(digits) {
            Some(-digits_value(digits))
        } else {
            None
        }
    } else {
        match unsigned_value(s) {
            Some(n) => Some(n as int),
            None => None,
        }
    }
}

/// Reads a signed number in decimal.
pub fn parse_i64(s: &str) -> (r: Option<i64>)
    ensures
        match r {
            Some(n) => signed_text_value(s@) == Some(n as int),
            None => signed_text_value(s@) is None || !(i64::MIN <= signed_text_value(s@)->0
                <= i64::MAX),
        },
{
    let chars = chars_of(s);
    if chars.len() > 0 && chars[0] == '-' {
        if chars.len() > 1 && chars[1] == '+' {
            assert(!is_digit(s@.skip(1)[0]));
            return None;
        }
        let digits = string_of(&chars, 1, chars.len());
        assert(digits@ == s@.skip(1));
        match parse_u64(digits.as_str()) {
            Some(n) => if n <= i64::MAX as u64 {
                Some(-(n as i64))
            } else if n == 9223372036854775808 {
                Some(i64::MIN)
            } else {
                None
            },
            None => None,
        }
    } else {
        match parse_u64(s) {
            Some(n) => if n <= i64::MAX as u64 {
                Some(n as i64)
            } else {
                None
            },
            None => None,
        }
    }
}

/// What is written in decimal is read back as the same number.
pub proof fn signed_decimal_is_read_back(n: int)
    ensures
        signed_text_value(signed_decimal(n)) == Some(n),
{
    if n < 0 {
        decimal_is_read_back((-n) as nat);
        let s = signed_decimal(n);
        assert(s.skip(1) == decimal((-n) as nat));
        assert(s[0] == '-');
    } else {
        decimal_is_read_back(n as nat);
        assert(is_digit(decimal(n as nat)[0]));
    }
}

/// Appends a number in decimal.
pub fn push_u64(out: &mut String, n: u64)
    ensures
        final(out)@ == old(out)@ + decimal(n as nat),
    decreases n,
{
    if n >= 10 {
        push_u64(out, n / 10);
    }
    let d: u8 = (n % 10) as u8;
    let c: char = (d + 48) as char;
    out.push(c);
    assert(final(out)@ == old(out)@ + decimal(n as nat)) by {
        assert(c == digit_char((n % 10) as nat));
    }
}

/// Appends a signed number in decimal.
pub fn push_i64(out: &mut String, n: i64)
    ensures
        final(out)@ == old(out)@ + signed_decimal(n as int),
{
    if n < 0 {
        out.push('-');
        let magnitude: u64 = if n == i64::MIN {
            9223372036854775808
        } else {
            (-n) as u64
        };
        push_u64(out, magnitude);
        assert(final(out)@ == old(out)@ + (seq!['-'] + decimal(magnitude as nat)));
    } else {
        push_u64(out, n as u64);
    }
}

/// A number may be written with a plus sign and with zeros in front of it. A text with anything but
/// digits behind the sign, or with nothing there, is no number.
pub proof fn numbers_may_have_a_sign_and_zeros(digits: Seq<char>, s: Seq<char>, i: int)
    ensures
        digits.len() > 0 && all_digits(digits) ==> {
            &&& unsigned_value(digits) is Some
            &&& unsigned_value(seq!['+'] + digits) == unsigned_value(digits)
            &&& unsigned_value(seq!['0'] + digits) == unsigned_value(digits)
        },
        unsigned_value(Seq::empty()) is None,
        unsigned_value(seq!['+']) is None,
        0 <= i < s.len() && !is_digit(s[i]) && (i > 0 || s[0] != '+') ==> unsigned_value(s) is None,
{
    if digits.len() > 0 && all_digits(digits) {
        assert(is_digit(digits[0]));
        let signed = seq!['+'] + digits;
        assert(signed.skip(1) == digits);
        let padded = seq!['0'] + digits;
        assert(all_digits(padded)) by {
            assert forall|k: int| 0 <= k < padded.len() implies #[trigger] is_digit(padded[k]) by {
                if k > 0 {
                    assert(is_digit(digits[k - 1]));
                }
            }
        }
        assert(is_digit(padded[0]));
        zeros_add_nothing(digits);
    }
    assert(seq!['+'].skip(1) == Seq::<char>::empty());
    if 0 <= i < s.len() && !is_digit(s[i]) && (i > 0 || s[0] != '+') {
        if s[0] == '+' {
            assert(s.skip(1)[i - 1] == s[i]);
        }
    }
}

/// A zero in front of digits does not change what they denote.
proof fn zeros_add_nothing(digits: Seq<char>)
    ensures
        digits_value(seq!['0'] + digits) == digits_value(digits),
    decreases digits.len(),
{
    reveal_with_fuel(digits_value, 2);
    let padded = seq!['0'] + digits;
    if digits.len() > 0 {
        zeros_add_nothing(digits.drop_last());
        assert(padded.drop_last() == seq!['0'] + digits.drop_last());
        assert(padded.last() == digits.last());
    } else {
        assert(padded.drop_last() == Seq::<char>::empty());
        assert(padded.last() == '0');
    }
}

/// Digits count ten times as much as those behind them.
pub proof fn digits_are_decimal(n: nat, d: nat, s: Seq<char>, c: char)
    requires
        d < 10,
        '0' <= c <= '9',
    ensures
        n > 0 ==> decimal(10 * n + d) == decimal(n).push((d + 0x30) as char),
        decimal(d) == seq![(d + 0x30) as char],
        digits_value(s.push(c)) == 10 * digits_value(s) + (c as int - 0x30),
        digits_value(Seq::empty()) == 0,
        is_digit(c),
{
    assert((10 * n + d) / 10 == n);
    assert((10 * n + d) % 10 == d);
    assert(s.push(c).drop_last() == s);
    assert(s.push(c).last() == c);
}

/// A minus sign makes a number negative; signs do not add up.
pub proof fn minus_signs_negate(digits: Seq<char>)
    requires
        digits.len() > 0,
        all_digits(digits),
    ensures
        unsigned_value(digits) is Some,
        signed_text_value(digits) == Some(unsigned_value(digits)->0 as int),
        signed_text_value(seq!['+'] + digits) == Some(unsigned_value(digits)->0 as int),
        signed_text_value(seq!['-'] + digits) == Some(-(unsigned_value(digits)->0)),
        signed_text_value(seq!['-', '-'] + digits) is None,
        signed_text_value(seq!['-', '+'] + digits) is None,
        signed_text_value(seq!['-']) is None,
        unsigned_value(seq!['-'] + digits) is None,
{
    numbers_may_have_a_sign_and_zeros(digits, seq!['-'] + digits, 0);
    assert(is_digit(digits[0]));
    assert((seq!['-'] + digits).skip(1) == digits);
    assert((seq!['-', '-'] + digits).skip(1)[0] == '-');
    assert((seq!['-', '+'] + digits).skip(1)[0] == '+');
    assert(!is_digit('-') && !is_digit('+'));
}

} // verus!

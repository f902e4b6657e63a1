//! Unsigned decimal numbers as text: what a digit string is worth, when it is
//! accepted as a bounded number, and the digits of a number.

use vstd::prelude::*;

verus! {

/// Why a text was not accepted as a number.
#[derive(Clone, Copy, Debug, PartialEq, Eq, Structural)]
pub enum NumberError {
    /// The text is empty.
    Empty,
    /// The text holds something that is not a decimal digit, or is a sign
    /// alone.
    InvalidDigit,
    /// The number is above the largest value allowed.
    PosOverflow,
}

impl NumberError {
    /// The message that goes with the error.
    pub fn to_string(&self) -> (s: String)
        ensures
            s@ == match *self {
                NumberError::Empty => "cannot parse integer from empty string"@,
                NumberError::InvalidDigit => "invalid digit found in string"@,
                NumberError::PosOverflow => "number too large to fit in target type"@,
            },
    {
        match self {
            NumberError::Empty => "cannot parse integer from empty string".to_owned(),
            NumberError::InvalidDigit => "invalid digit found in string".to_owned(),
            NumberError::PosOverflow => "number too large to fit in target type".to_owned(),
        }
    }
}

/// Tells whether `c` is one of `0` to `9`.
pub open spec fn is_digit(c: char) -> bool {
    0x30 <= c as u32 <= 0x39
}

/// What the digit `c` is worth.
pub open spec fn digit_value(c: char) -> nat {
    (c as u32 - 0x30) as nat
}

/// The digit that is worth `d`, for `d` below ten.
pub open spec fn digit_char(d: nat) -> char {
    ((0x30 + d) as u8) as char
}

/// Tells whether `s` holds decimal digits only.
pub open spec fn all_digits(s: Seq<char>) -> bool {
    forall|i: int| 0 <= i < s.len() ==> is_digit(#[trigger] s[i])
}

/// What the digit string `s` is worth, read in base ten.
pub open spec fn decimal_value(s: Seq<char>) -> nat
    decreases s.len(),
{
    if s.len() == 0 {
        0
    } else {
        decimal_value(s.drop_last()) * 10 + digit_value(s.last())
    }
}

/// Reads `s` from left to right as a number of at most `max`. The first thing
/// that goes wrong decides the error: a value that can no longer stay within
/// `max` before a character that is no digit.
pub open spec fn scan_decimal(s: Seq<char>, max: nat) -> Result<nat, NumberError>
    decreases s.len(),
{
    if s.len() == 0 {
        Ok(0)
    } else {
        match scan_decimal(s.drop_last(), max) {
            Err(e) => Err(e),
            Ok(v) => if v * 10 > max {
                Err(NumberError::PosOverflow)
            } else if !is_digit(s.last()) {
                Err(NumberError::InvalidDigit)
            } else if v * 10 + digit_value(s.last()) > max {
                Err(NumberError::PosOverflow)
            } else {
                Ok(v * 10 + digit_value(s.last()))
            },
        }
    }
}

/// Reads `s` as an unsigned number of at most `max`: an optional `+`, then at
/// least one digit, and nothing else.
pub open spec fn parse_unsigned(s: Seq<char>, max: nat) -> Result<nat, NumberError> {
    if s.len() == 0 {
        Err(NumberError::Empty)
    } else if s.len() == 1 && (s[0] == '+' || s[0] == '-') {
        Err(NumberError::InvalidDigit)
    } else if s[0] == '+' {
        scan_decimal(s.drop_first(), max)
    } else {
        scan_decimal(s, max)
    }
}

/// The decimal digits of `n`, without leading zeros.
pub open spec fn decimal_digits(n: nat) -> Seq<char>
    decreases n,
{
    if n < 10 {
        seq![digit_char(n)]
    } else {
        decimal_digits(n / 10).push(digit_char(n % 10))
    }
}

/// The result of a scan with its value widened, to compare it with the
/// mathematical one.
pub open spec fn widen(r: Result<u32, NumberError>) -> Result<nat, NumberError> {
    match r {
        Ok(v) => Ok(v as nat),
        Err(e) => Err(e),
    }
}

/// A scan succeeds exactly on digit strings whose value is within `max`, and
/// then gives that value.
pub proof fn lemma_scan_decimal(s: Seq<char>, max: nat)
    ensures
        scan_decimal(s, max) is Ok <==> all_digits(s) && decimal_value(s) <= max,
        scan_decimal(s, max) matches Ok(v) ==> v == decimal_value(s),
    decreases s.len(),
{
    if s.len() > 0 {
        let p = s.drop_last();
        lemma_scan_decimal(p, max);
        assert(all_digits(s) ==> all_digits(p)) by {
            if all_digits(s) {
                assert forall|i: int| 0 <= i < p.len() implies is_digit(#[trigger] p[i]) by {
                    assert(p[i] == s[i]);
                }
            }
        }
        assert(all_digits(p) && is_digit(s.last()) ==> all_digits(s)) by {
            if all_digits(p) && is_digit(s.last()) {
                assert forall|i: int| 0 <= i < s.len() implies is_digit(#[trigger] s[i]) by {
                    if i < p.len() {
                        assert(p[i] == s[i]);
                    }
                }
            }
        }
        assert(all_digits(s) ==> is_digit(s.last())) by {
            if all_digits(s) {
                assert(is_digit(s[s.len() - 1]));
            }
        }
    }
}

/// Once a scan has failed on a prefix, it fails in the same way on the whole.
pub proof fn lemma_scan_error_stays(s: Seq<char>, j: int, max: nat)
    requires
        0 <= j <= s.len(),
        scan_decimal(s.take(j), max) is Err,
    ensures
        scan_decimal(s, max) == scan_decimal(s.take(j), max),
    decreases s.len(),
{
    if j == s.len() {
        assert(s.take(j) == s);
    } else {
        assert(s.drop_last().take(j) == s.take(j));
        lemma_scan_error_stays(s.drop_last(), j, max);
    }
}

/// The digits of a number are digits, are worth the number, and begin with
/// `0` only for zero itself.
pub proof fn lemma_decimal_digits(n: nat)
    ensures
        decimal_digits(n).len() >= 1,
        all_digits(decimal_digits(n)),
        decimal_value(decimal_digits(n)) == n,
        decimal_digits(n)[0] == '0' <==> n == 0,
        n < 10 ==> decimal_digits(n).len() == 1,
        10 <= n < 100 ==> decimal_digits(n).len() == 2,
        100 <= n < 1000 ==> decimal_digits(n).len() == 3,
        n >= 1000 ==> decimal_digits(n).len() > 3,
    decreases n,
{
    let d = decimal_digits(n);
    if n < 10 {
        assert(d.drop_last() == Seq::<char>::empty());
        assert(decimal_value(d.drop_last()) == 0);
        assert(is_digit(d[0]));
    } else {
        lemma_decimal_digits(n / 10);
        let p = decimal_digits(n / 10);
        assert(d.drop_last() == p);
        assert(d.last() == digit_char(n % 10));
        assert(is_digit(digit_char(n % 10)));
        assert forall|i: int| 0 <= i < d.len() implies is_digit(#[trigger] d[i]) by {
            if i < p.len() {
                assert(d[i] == p[i]);
            }
        }
        assert(d[0] == p[0]);
    }
}

/// Reading back the digits of a number within `max` gives the number.
pub proof fn lemma_parse_decimal_digits(n: nat, max: nat)
    requires
        n <= max,
    ensures
        scan_decimal(decimal_digits(n), max) == Ok::<nat, NumberError>(n),
        parse_unsigned(decimal_digits(n), max) == Ok::<nat, NumberError>(n),
{
    lemma_decimal_digits(n);
    lemma_scan_decimal(decimal_digits(n), max);
    assert(is_digit(decimal_digits(n)[0]));
}

/// Tells whether `c` is a decimal digit.
pub fn char_is_digit(c: char) -> (b: bool)
    ensures
        b == is_digit(c),
{
    let n: u32 = c as u32;
    0x30 <= n && n <= 0x39
}

/// Reads `s` as a digit string worth at most `max`.
pub fn scan_decimal_chars(s: &[char], max: u32) -> (r: Result<u32, NumberError>)
    ensures
        widen(r) == scan_decimal(s@, max as nat),
{
    let n: usize = s.len();
    let mut v: u64 = 0;
    let mut i: usize = 0;
    assert(s@.take(0) == Seq::<char>::empty());
    while i < n
        invariant
            i <= n,
            n == s@.len(),
            v <= max,
            scan_decimal(s@.take(i as int), max as nat) == Ok::<nat, NumberError>(v as nat),
        decreases n - i,
    {
        assert(s@.take(i + 1).drop_last() == s@.take(i as int));
        assert(s@.take(i + 1).last() == s@[i as int]);
        let c: char = s[i];
        if v * 10 > max as u64 {
            proof {
                lemma_scan_error_stays(s@, i + 1, max as nat);
            }
            return Err(NumberError::PosOverflow);
        }
        if !char_is_digit(c) {
            proof {
                lemma_scan_error_stays(s@, i + 1, max as nat);
            }
            return Err(NumberError::InvalidDigit);
        }
        let d: u64 = (c as u32 - 0x30) as u64;
        if v * 10 + d > max as u64 {
            proof {
                lemma_scan_error_stays(s@, i + 1, max as nat);
            }
            return Err(NumberError::PosOverflow);
        }
        v = v * 10 + d;
        i += 1;
    }
    assert(s@.take(n as int) == s@);
    Ok(v as u32)
}

/// Reads `s` as an unsigned number of at most `max`.
pub fn parse_unsigned_chars(s: &[char], max: u32) -> (r: Result<u32, NumberError>)
    ensures
        widen(r) == parse_unsigned(s@, max as nat),
{
    let n: usize = s.len();
    if n == 0 {
        Err(NumberError::Empty)
    } else if n == 1 && (s[0] == '+' || s[0] == '-') {
        Err(NumberError::InvalidDigit)
    } else if s[0] == '+' {
        assert(s@.subrange(1, n as int) == s@.drop_first());
        scan_decimal_chars(vstd::slice::slice_subrange(s, 1, n), max)
    } else {
        scan_decimal_chars(s, max)
    }
}

/// Appends the decimal digits of `n` to `out`.
pub fn push_decimal(out: &mut String, n: u64)
    ensures
        final(out)@ == old(out)@ + decimal_digits(n as nat),
    decreases n,
{
    if n >= 10 {
        push_decimal(out, n / 10);
    }
    let d: u8 = (n % 10) as u8;
    out.push((0x30 + d) as char);
    proof {
        let digits = decimal_digits(n as nat);
        if n >= 10 {
            assert(old(out)@ + decimal_digits((n / 10) as nat).push(digit_char((n % 10) as nat))
                == (old(out)@ + decimal_digits((n / 10) as nat)).push(digit_char((n % 10) as nat)));
        } else {
            assert(old(out)@ + seq![digit_char(n as nat)] == old(out)@.push(digit_char(n as nat)));
        }
    }
}

} // verus!

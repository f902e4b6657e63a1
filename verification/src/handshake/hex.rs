//! The sixteen-bit groups of an IPv6 address as text: one to four
//! hexadecimal digits.

use vstd::prelude::*;

use crate::decimal::is_digit;

verus! {

/// Tells whether `c` is a hexadecimal digit, in either case.
pub open spec fn is_hex_digit(c: char) -> bool {
    ||| is_digit(c)
    ||| 0x61 <= c as u32 <= 0x66
    ||| 0x41 <= c as u32 <= 0x46
}

/// What the hexadecimal digit `c` is worth.
pub open spec fn hex_digit_value(c: char) -> nat {
    if is_digit(c) {
        (c as u32 - 0x30) as nat
    } else if 0x61 <= c as u32 <= 0x66 {
        (c as u32 - 0x61 + 10) as nat
    } else {
        (c as u32 - 0x41 + 10) as nat
    }
}

/// The lower-case hexadecimal digit that is worth `d`, for `d` below
/// sixteen.
pub open spec fn hex_digit_char(d: nat) -> char {
    if d < 10 {
        ((0x30 + d) as u8) as char
    } else {
        ((0x61 + d - 10) as u8) as char
    }
}

/// Tells whether `s` holds hexadecimal digits only.
pub open spec fn all_hex(s: Seq<char>) -> bool {
    forall|i: int| 0 <= i < s.len() ==> is_hex_digit(#[trigger] s[i])
}

/// What the digit string `s` is worth, read in base sixteen.
pub open spec fn hex_value(s: Seq<char>) -> nat
    decreases s.len(),
{
    if s.len() == 0 {
        0
    } else {
        hex_value(s.drop_last()) * 16 + hex_digit_value(s.last())
    }
}

/// Tells whether `s` is a group as an IPv6 address writes it: one to four
/// hexadecimal digits.
pub open spec fn is_hex_group(s: Seq<char>) -> bool {
    1 <= s.len() <= 4 && all_hex(s)
}

/// The hexadecimal digits of `n`, in lower case and without leading zeros.
pub open spec fn hex_digits(n: nat) -> Seq<char>
    decreases n,
{
    if n < 16 {
        seq![hex_digit_char(n)]
    } else {
        hex_digits(n / 16).push(hex_digit_char(n % 16))
    }
}

/// A digit string of `k` digits is worth less than the `k`-th power of
/// sixteen; a group is worth less than 65536.
pub proof fn lemma_hex_value_bound(s: Seq<char>)
    requires
        all_hex(s),
    ensures
        s.len() <= 1 ==> hex_value(s) < 16,
        s.len() <= 2 ==> hex_value(s) < 256,
        s.len() <= 3 ==> hex_value(s) < 4096,
        s.len() <= 4 ==> hex_value(s) < 65536,
    decreases s.len(),
{
    if s.len() > 0 {
        let p = s.drop_last();
        assert forall|i: int| 0 <= i < p.len() implies is_hex_digit(#[trigger] p[i]) by {
            assert(p[i] == s[i]);
        }
        assert(is_hex_digit(s[s.len() - 1]));
        lemma_hex_value_bound(p);
    }
}

/// The digits of a number are hexadecimal digits and are worth the number;
/// those of a number below 65536 make a group.
pub proof fn lemma_hex_digits(n: nat)
    ensures
        hex_digits(n).len() >= 1,
        all_hex(hex_digits(n)),
        hex_value(hex_digits(n)) == n,
        n < 65536 ==> is_hex_group(hex_digits(n)),
        n < 4096 ==> hex_digits(n).len() <= 3,
        n < 256 ==> hex_digits(n).len() <= 2,
        n < 16 ==> hex_digits(n).len() <= 1,
    decreases n,
{
    let d = hex_digits(n);
    if n < 16 {
        assert(d.drop_last() == Seq::<char>::empty());
        assert(hex_value(d.drop_last()) == 0);
        assert(is_hex_digit(d[0]));
    } else {
        lemma_hex_digits(n / 16);
        let p = hex_digits(n / 16);
        assert(d.drop_last() == p);
        assert(d.last() == hex_digit_char(n % 16));
        assert(is_hex_digit(hex_digit_char(n % 16)));
        assert forall|i: int| 0 <= i < d.len() implies is_hex_digit(#[trigger] d[i]) by {
            if i < p.len() {
                assert(d[i] == p[i]);
            }
        }
    }
}

/// Tells whether `c` is a hexadecimal digit.
pub fn char_is_hex_digit(c: char) -> (b: bool)
    ensures
        b == is_hex_digit(c),
{
    let n: u32 = c as u32;
    (0x30 <= n && n <= 0x39) || (0x61 <= n && n <= 0x66) || (0x41 <= n && n <= 0x46)
}

/// The group that `s` writes, if it writes one.
pub fn parse_hex_group(s: &[char]) -> (r: Option<u16>)
    ensures
        r is Some <==> is_hex_group(s@),
        r matches Some(v) ==> v == hex_value(s@),
{
    let n: usize = s.len();
    if n < 1 || n > 4 {
        return None;
    }
    let mut v: u32 = 0;
    let mut i: usize = 0;
    assert(s@.take(0) == Seq::<char>::empty());
    while i < n
        invariant
            i <= n <= 4,
            n == s@.len(),
            all_hex(s@.take(i as int)),
            v == hex_value(s@.take(i as int)),
        decreases n - i,
    {
        let c: char = s[i];
        if !char_is_hex_digit(c) {
            assert(!is_hex_digit(s@[i as int]));
            return None;
        }
        let code: u32 = c as u32;
        let d: u32 = if code <= 0x39 {
            code - 0x30
        } else if code >= 0x61 {
            code - 0x61 + 10
        } else {
            code - 0x41 + 10
        };
        proof {
            let t = s@.take(i + 1);
            assert(t.drop_last() == s@.take(i as int));
            assert(t.last() == c);
            assert forall|k: int| 0 <= k < t.len() implies is_hex_digit(#[trigger] t[k]) by {
                if k < i {
                    assert(s@.take(i as int)[k] == t[k]);
                }
            }
            lemma_hex_value_bound(s@.take(i as int));
        }
        v = v * 16 + d;
        i += 1;
    }
    assert(s@.take(n as int) == s@);
    proof {
        lemma_hex_value_bound(s@);
    }
    Some(v as u16)
}

/// Appends the hexadecimal digits of `n` to `out`.
pub fn push_hex(out: &mut String, n: u16)
    ensures
        final(out)@ == old(out)@ + hex_digits(n as nat),
    decreases n,
{
    if n >= 16 {
        push_hex(out, n / 16);
    }
    let d: u8 = (n % 16) as u8;
    let c: char = if d < 10 {
        (0x30 + d) as char
    } else {
        (0x61 + d - 10) as char
    };
    out.push(c);
    proof {
        if n >= 16 {
            assert(old(out)@ + hex_digits((n / 16) as nat).push(hex_digit_char((n % 16) as nat))
                == (old(out)@ + hex_digits((n / 16) as nat)).push(hex_digit_char((n % 16) as nat)));
        } else {
            assert(old(out)@ + seq![hex_digit_char(n as nat)] == old(out)@.push(
                hex_digit_char(n as nat),
            ));
        }
    }
}

} // verus!

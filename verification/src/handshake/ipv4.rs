//! IPv4 addresses as text: four octets joined by dots.

use vstd::prelude::*;
use vstd::slice::slice_subrange;

use crate::decimal::{
    all_digits, decimal_digits, decimal_value, is_digit, lemma_decimal_digits, lemma_scan_decimal,
    push_decimal, scan_decimal_chars,
};
use crate::text::{
    free_of, is_piece, lemma_split_extend, lemma_split_single, split, split_bounds,
};

verus! {

/// Tells whether `s` is an octet as an address writes it: one to three
/// digits, no leading zero before another digit, at most 255.
pub open spec fn is_octet_text(s: Seq<char>) -> bool {
    &&& 1 <= s.len() <= 3
    &&& all_digits(s)
    &&& (s.len() > 1 ==> s[0] != '0')
    &&& decimal_value(s) <= 255
}

/// The IPv4 address that `s` names, if it names one.
pub open spec fn parse_ipv4(s: Seq<char>) -> Option<[u8; 4]> {
    let octets = split(s, '.');
    if octets.len() == 4 && is_octet_text(octets[0]) && is_octet_text(octets[1]) && is_octet_text(
        octets[2],
    ) && is_octet_text(octets[3]) {
        Some(
            [
                decimal_value(octets[0]) as u8,
                decimal_value(octets[1]) as u8,
                decimal_value(octets[2]) as u8,
                decimal_value(octets[3]) as u8,
            ],
        )
    } else {
        None
    }
}

/// The text of an IPv4 address.
pub open spec fn format_ipv4(ip: [u8; 4]) -> Seq<char> {
    decimal_digits(ip[0] as nat).push('.') + decimal_digits(ip[1] as nat).push('.')
        + decimal_digits(ip[2] as nat).push('.') + decimal_digits(ip[3] as nat)
}

/// Tells whether `s` is made of digits and dots.
pub open spec fn digits_and_dots(s: Seq<char>) -> bool {
    forall|i: int| 0 <= i < s.len() ==> is_digit(#[trigger] s[i]) || s[i] == '.'
}

/// Digits hold no punctuation.
pub proof fn lemma_digits_free_of(s: Seq<char>, c: char)
    requires
        all_digits(s),
        !is_digit(c),
    ensures
        free_of(s, c),
{
    assert forall|i: int| 0 <= i < s.len() implies s[i] != c by {
        assert(is_digit(s[i]));
    }
}

/// The text of an IPv4 address begins and ends with a digit, holds a dot,
/// and holds nothing but digits and dots.
pub proof fn lemma_ipv4_shape(ip: [u8; 4])
    ensures
        format_ipv4(ip).len() > 0,
        is_digit(format_ipv4(ip)[0]),
        is_digit(format_ipv4(ip).last()),
        digits_and_dots(format_ipv4(ip)),
        exists|i: int| 0 <= i < format_ipv4(ip).len() && format_ipv4(ip)[i] == '.',
{
    lemma_decimal_digits(ip[0] as nat);
    lemma_decimal_digits(ip[1] as nat);
    lemma_decimal_digits(ip[2] as nat);
    lemma_decimal_digits(ip[3] as nat);
    let o0 = decimal_digits(ip[0] as nat);
    let o3 = decimal_digits(ip[3] as nat);
    let s = format_ipv4(ip);
    assert(s[0] == o0[0]);
    assert(s.last() == o3.last());
    assert(s[o0.len() as int] == '.');
}

/// The text of an IPv4 address splits at its dots into the digits of the
/// four octets.
pub proof fn lemma_split_ipv4(ip: [u8; 4])
    ensures
        split(format_ipv4(ip), '.') == seq![
            decimal_digits(ip[0] as nat),
            decimal_digits(ip[1] as nat),
            decimal_digits(ip[2] as nat),
            decimal_digits(ip[3] as nat),
        ],
{
    let o0 = decimal_digits(ip[0] as nat);
    let o1 = decimal_digits(ip[1] as nat);
    let o2 = decimal_digits(ip[2] as nat);
    let o3 = decimal_digits(ip[3] as nat);
    lemma_decimal_digits(ip[0] as nat);
    lemma_decimal_digits(ip[1] as nat);
    lemma_decimal_digits(ip[2] as nat);
    lemma_decimal_digits(ip[3] as nat);
    lemma_digits_free_of(o0, '.');
    lemma_digits_free_of(o1, '.');
    lemma_digits_free_of(o2, '.');
    lemma_digits_free_of(o3, '.');
    let s1 = o0.push('.') + o1;
    let s2 = s1.push('.') + o2;
    let s3 = s2.push('.') + o3;
    lemma_split_single(o0, '.');
    lemma_split_extend(o0, o1, '.');
    lemma_split_extend(s1, o2, '.');
    lemma_split_extend(s2, o3, '.');
    assert(format_ipv4(ip) == s3);
    assert(split(s3, '.') == seq![o0, o1, o2, o3]);
}

/// Reading the text of an IPv4 address gives the address back.
pub proof fn lemma_ipv4_round_trip(ip: [u8; 4])
    ensures
        parse_ipv4(format_ipv4(ip)) is Some,
        parse_ipv4(format_ipv4(ip))->0 == ip,
{
    lemma_split_ipv4(ip);
    lemma_decimal_digits(ip[0] as nat);
    lemma_decimal_digits(ip[1] as nat);
    lemma_decimal_digits(ip[2] as nat);
    lemma_decimal_digits(ip[3] as nat);
    let parsed = parse_ipv4(format_ipv4(ip));
    assert(parsed is Some);
    assert(parsed->0 =~= ip);
}

/// The octet that `s` writes, if it writes one.
fn parse_octet(s: &[char]) -> (r: Option<u8>)
    ensures
        r is Some <==> is_octet_text(s@),
        r matches Some(v) ==> v == decimal_value(s@),
{
    let n: usize = s.len();
    if n < 1 || n > 3 || (n > 1 && s[0] == '0') {
        return None;
    }
    proof {
        lemma_scan_decimal(s@, 255);
    }
    match scan_decimal_chars(s, 255) {
        Ok(v) => Some(v as u8),
        Err(_) => None,
    }
}

/// The IPv4 address that `s` names, if it names one.
pub fn parse_ipv4_chars(s: &[char]) -> (r: Option<[u8; 4]>)
    ensures
        r is Some <==> parse_ipv4(s@) is Some,
        r matches Some(ip) ==> ip == parse_ipv4(s@)->0,
{
    let octets = split_bounds(s, '.');
    if octets.len() != 4 {
        return None;
    }
    assert(is_piece(s@, octets@[0], split(s@, '.')[0]));
    assert(is_piece(s@, octets@[1], split(s@, '.')[1]));
    assert(is_piece(s@, octets@[2], split(s@, '.')[2]));
    assert(is_piece(s@, octets@[3], split(s@, '.')[3]));
    let o0 = parse_octet(slice_subrange(s, octets[0].0, octets[0].1));
    let o1 = parse_octet(slice_subrange(s, octets[1].0, octets[1].1));
    let o2 = parse_octet(slice_subrange(s, octets[2].0, octets[2].1));
    let o3 = parse_octet(slice_subrange(s, octets[3].0, octets[3].1));
    match (o0, o1, o2, o3) {
        (Some(a), Some(b), Some(c), Some(d)) => {
            let ip = [a, b, c, d];
            assert(ip =~= parse_ipv4(s@)->0);
            Some(ip)
        },
        _ => None,
    }
}

/// Appends the text of an IPv4 address to `out`.
pub fn push_ipv4(out: &mut String, ip: &[u8; 4])
    ensures
        final(out)@ == old(out)@ + format_ipv4(*ip),
{
    push_decimal(out, ip[0] as u64);
    out.push('.');
    push_decimal(out, ip[1] as u64);
    out.push('.');
    push_decimal(out, ip[2] as u64);
    out.push('.');
    push_decimal(out, ip[3] as u64);
    assert(final(out)@ =~= old(out)@ + format_ipv4(*ip));
}

} // verus!

//! The TCP endpoint that a handshake names: an IP address and a port,
//! written `a.b.c.d:port` for IPv4 and `[groups]:port` for IPv6.

use vstd::prelude::*;
use vstd::slice::slice_subrange;

use super::hex::is_hex_digit;
use super::ipv4::{
    format_ipv4, lemma_digits_free_of, lemma_ipv4_round_trip, lemma_ipv4_shape, parse_ipv4,
    parse_ipv4_chars, push_ipv4,
};
use super::ipv6::{
    format_ipv6, lemma_ipv6_chars, lemma_ipv6_round_trip, parse_ipv6, parse_ipv6_chars, push_ipv6,
};
use crate::decimal::{
    all_digits, decimal_digits, decimal_value, is_digit, lemma_decimal_digits, lemma_scan_decimal,
    push_decimal, scan_decimal_chars,
};
use crate::text::{
    free_of, is_piece, is_whitespace, lemma_split_extend, lemma_split_len, lemma_split_single,
    split, split_bounds,
};

verus! {

/// An IP address with a port.
#[derive(Clone, Copy, Debug, PartialEq, Eq)]
pub enum SocketAddress {
    /// An IPv4 address, as its four octets, with a port.
    V4 { ip: [u8; 4], port: u16 },
    /// An IPv6 address, as its eight groups, with a port and the number of
    /// the scope that the address belongs to. Scope zero is no scope.
    V6 { ip: [u16; 8], port: u16, scope_id: u32 },
}

/// Tells whether `s` is a port as an address writes it: at least one digit,
/// at most 65535.
pub open spec fn is_port_text(s: Seq<char>) -> bool {
    &&& s.len() >= 1
    &&& all_digits(s)
    &&& decimal_value(s) <= 65535
}

/// Tells whether `s` is a scope number as an address writes it: at least one
/// digit, at most 4294967295.
pub open spec fn is_scope_text(s: Seq<char>) -> bool {
    &&& s.len() >= 1
    &&& all_digits(s)
    &&& decimal_value(s) <= u32::MAX
}

/// The IPv4 endpoint that `s` names, if it names one: the address, a colon
/// and the port.
pub open spec fn parse_v4_address(s: Seq<char>) -> Option<SocketAddress> {
    let halves = split(s, ':');
    if halves.len() == 2 && parse_ipv4(halves[0]) is Some && is_port_text(halves[1]) {
        Some(
            SocketAddress::V4 {
                ip: parse_ipv4(halves[0])->0,
                port: decimal_value(halves[1]) as u16,
            },
        )
    } else {
        None
    }
}

/// The IPv6 endpoint that `s` names, if it names one: in square brackets the
/// address and, after a `%`, the scope number if there is one; then a colon
/// and the port.
pub open spec fn parse_v6_address(s: Seq<char>) -> Option<SocketAddress> {
    let outer = split(s, ']');
    let inner = split(outer[0].skip(1), '%');
    if outer.len() == 2 && outer[0].len() >= 1 && outer[0][0] == '[' && outer[1].len() >= 1
        && outer[1][0] == ':' && is_port_text(outer[1].skip(1)) && parse_ipv6(inner[0]) is Some
        && (inner.len() == 1 || (inner.len() == 2 && is_scope_text(inner[1]))) {
        let groups = parse_ipv6(inner[0])->0;
        Some(
            SocketAddress::V6 {
                ip: [
                    groups[0],
                    groups[1],
                    groups[2],
                    groups[3],
                    groups[4],
                    groups[5],
                    groups[6],
                    groups[7],
                ],
                port: decimal_value(outer[1].skip(1)) as u16,
                scope_id: if inner.len() == 1 {
                    0u32
                } else {
                    decimal_value(inner[1]) as u32
                },
            },
        )
    } else {
        None
    }
}

/// The endpoint that `s` names, if it names one.
pub open spec fn parse_address(s: Seq<char>) -> Option<SocketAddress> {
    if s.len() > 0 && s[0] == '[' {
        parse_v6_address(s)
    } else {
        parse_v4_address(s)
    }
}

/// The scope of an IPv6 endpoint as its text has it: nothing for scope
/// zero, else `%` and the number.
pub open spec fn format_scope(scope_id: u32) -> Seq<char> {
    if scope_id == 0 {
        Seq::<char>::empty()
    } else {
        seq!['%'] + decimal_digits(scope_id as nat)
    }
}

/// The text of an endpoint.
pub open spec fn format_address(a: SocketAddress) -> Seq<char> {
    match a {
        SocketAddress::V4 { ip, port } => format_ipv4(ip).push(':') + decimal_digits(port as nat),
        SocketAddress::V6 { ip, port, scope_id } => (seq!['['] + format_ipv6(ip@) + format_scope(
            scope_id,
        )).push(']').push(':') + decimal_digits(port as nat),
    }
}

/// Tells whether `c` may occur in the text of an endpoint.
pub open spec fn is_address_char(c: char) -> bool {
    is_hex_digit(c) || c == ':' || c == '.' || c == '[' || c == ']' || c == '%'
}

/// The text of an endpoint begins with a digit or a bracket, ends with a
/// digit, and holds nothing but hexadecimal digits, colons, dots, brackets
/// and a percent sign: no `|`, and no whitespace.
pub proof fn lemma_address_shape(a: SocketAddress)
    ensures
        format_address(a).len() > 0,
        !is_whitespace(format_address(a)[0]),
        !is_whitespace(format_address(a).last()),
        free_of(format_address(a), '|'),
{
    let s = format_address(a);
    match a {
        SocketAddress::V4 { ip, port } => {
            lemma_ipv4_shape(ip);
            lemma_decimal_digits(port as nat);
            let host = format_ipv4(ip);
            let tail = decimal_digits(port as nat);
            assert(s[0] == host[0]);
            assert(s.last() == tail.last());
            assert(is_digit(tail[tail.len() - 1]));
            assert forall|i: int| 0 <= i < s.len() implies s[i] != '|' by {
                if i < host.len() {
                    assert(s[i] == host[i]);
                    assert(is_digit(host[i]) || host[i] == '.');
                } else if i > host.len() {
                    assert(s[i] == tail[i - host.len() - 1]);
                    assert(is_digit(tail[i - host.len() - 1]));
                }
            }
        },
        SocketAddress::V6 { ip, port, scope_id } => {
            lemma_ipv6_chars(ip@);
            lemma_decimal_digits(port as nat);
            lemma_decimal_digits(scope_id as nat);
            let body = format_ipv6(ip@);
            let scope = format_scope(scope_id);
            let left = seq!['['] + body + scope;
            let tail = decimal_digits(port as nat);
            assert(s == left.push(']').push(':') + tail);
            assert(s[0] == '[');
            assert(s.last() == tail.last());
            assert(is_digit(tail[tail.len() - 1]));
            assert forall|i: int| 0 <= i < s.len() implies s[i] != '|' by {
                if 1 <= i < 1 + body.len() {
                    assert(s[i] == body[i - 1]);
                    assert(is_hex_digit(body[i - 1]) || body[i - 1] == ':' || body[i - 1] == '.');
                } else if 1 + body.len() <= i < left.len() {
                    assert(s[i] == scope[i - 1 - body.len()]);
                    if i > 1 + body.len() {
                        assert(scope[i - 1 - body.len()] == decimal_digits(scope_id as nat)[i - 2
                            - body.len()]);
                        assert(is_digit(decimal_digits(scope_id as nat)[i - 2 - body.len()]));
                    }
                } else if i >= left.len() + 2 {
                    assert(s[i] == tail[i - left.len() - 2]);
                    assert(is_digit(tail[i - left.len() - 2]));
                }
            }
        },
    }
}

/// Reading the text of an IPv4 endpoint gives the endpoint back.
proof fn lemma_v4_round_trip(ip: [u8; 4], port: u16)
    ensures
        parse_address(format_address(SocketAddress::V4 { ip, port })) == Some(
            SocketAddress::V4 { ip, port },
        ),
{
    let a = SocketAddress::V4 { ip, port };
    let host = format_ipv4(ip);
    let tail = decimal_digits(port as nat);
    let s = format_address(a);
    lemma_ipv4_shape(ip);
    lemma_ipv4_round_trip(ip);
    lemma_decimal_digits(port as nat);
    lemma_digits_free_of(tail, ':');
    assert(free_of(host, ':')) by {
        assert forall|i: int| 0 <= i < host.len() implies host[i] != ':' by {
            assert(is_digit(host[i]) || host[i] == '.');
        }
    }
    lemma_split_single(host, ':');
    lemma_split_extend(host, tail, ':');
    assert(split(s, ':') == seq![host, tail]);
    assert(s[0] == host[0]);
    assert(is_digit(host[0]));
}

/// Reading the text of an IPv6 endpoint gives the endpoint back.
proof fn lemma_v6_round_trip(ip: [u16; 8], port: u16, scope_id: u32)
    ensures
        parse_address(format_address(SocketAddress::V6 { ip, port, scope_id })) == Some(
            SocketAddress::V6 { ip, port, scope_id },
        ),
{
    let a = SocketAddress::V6 { ip, port, scope_id };
    let body = format_ipv6(ip@);
    let scope = format_scope(scope_id);
    let digits = decimal_digits(scope_id as nat);
    let left = seq!['['] + body + scope;
    let tail = decimal_digits(port as nat);
    let right = seq![':'] + tail;
    let s = format_address(a);
    lemma_ipv6_chars(ip@);
    lemma_ipv6_round_trip(ip@);
    lemma_decimal_digits(port as nat);
    lemma_decimal_digits(scope_id as nat);
    lemma_digits_free_of(tail, ']');
    lemma_digits_free_of(digits, ']');
    lemma_digits_free_of(digits, '%');
    assert(s == left.push(']') + right);
    assert(free_of(body, ']') && free_of(body, '%')) by {
        assert forall|i: int| 0 <= i < body.len() implies body[i] != ']' && body[i] != '%' by {
            assert(is_hex_digit(body[i]) || body[i] == ':' || body[i] == '.');
        }
    }
    assert(free_of(left, ']')) by {
        assert forall|i: int| 0 <= i < left.len() implies left[i] != ']' by {
            if 1 <= i < 1 + body.len() {
                assert(left[i] == body[i - 1]);
            } else if i > 1 + body.len() {
                assert(left[i] == digits[i - 2 - body.len()]);
            }
        }
    }
    assert(free_of(right, ']')) by {
        assert forall|i: int| 0 <= i < right.len() implies right[i] != ']' by {
            if i > 0 {
                assert(right[i] == tail[i - 1]);
            }
        }
    }
    lemma_split_single(left, ']');
    lemma_split_extend(left, right, ']');
    let outer = split(s, ']');
    assert(outer == seq![left, right]);
    assert(left.skip(1) == body + scope);
    assert(right.skip(1) == tail);
    lemma_split_single(body, '%');
    if scope_id == 0 {
        assert(body + scope == body);
    } else {
        lemma_split_extend(body, digits, '%');
        assert(body + scope == body.push('%') + digits);
    }
    assert(s[0] == '[');
    let parsed = parse_address(s);
    assert(parsed is Some);
    assert(parsed->0->V6_ip =~= ip);
}

/// Reading the text of an endpoint gives the endpoint back.
pub proof fn lemma_address_round_trip(a: SocketAddress)
    ensures
        parse_address(format_address(a)) == Some(a),
{
    match a {
        SocketAddress::V4 { ip, port } => {
            lemma_v4_round_trip(ip, port);
        },
        SocketAddress::V6 { ip, port, scope_id } => {
            lemma_v6_round_trip(ip, port, scope_id);
        },
    }
}

/// The number that `s` writes, if it writes one of at most `max`: at least
/// one digit, and nothing else.
fn parse_number(s: &[char], max: u32) -> (r: Option<u32>)
    ensures
        r is Some <==> s@.len() >= 1 && all_digits(s@) && decimal_value(s@) <= max,
        r matches Some(v) ==> v == decimal_value(s@),
{
    if s.len() < 1 {
        return None;
    }
    proof {
        lemma_scan_decimal(s@, max as nat);
    }
    match scan_decimal_chars(s, max) {
        Ok(v) => Some(v),
        Err(_) => None,
    }
}

/// The IPv4 endpoint that `s` names, if it names one.
fn parse_v4(s: &[char]) -> (r: Option<SocketAddress>)
    ensures
        r == parse_v4_address(s@),
{
    let halves = split_bounds(s, ':');
    if halves.len() != 2 {
        return None;
    }
    assert(is_piece(s@, halves@[0], split(s@, ':')[0]));
    assert(is_piece(s@, halves@[1], split(s@, ':')[1]));
    let ip = parse_ipv4_chars(slice_subrange(s, halves[0].0, halves[0].1));
    let port = parse_number(slice_subrange(s, halves[1].0, halves[1].1), 65535);
    match (ip, port) {
        (Some(ip), Some(port)) => Some(SocketAddress::V4 { ip, port: port as u16 }),
        _ => None,
    }
}

/// The IPv6 endpoint that `s` names, if it names one.
fn parse_v6(s: &[char]) -> (r: Option<SocketAddress>)
    ensures
        r == parse_v6_address(s@),
{
    let outer = split_bounds(s, ']');
    if outer.len() != 2 {
        return None;
    }
    assert(is_piece(s@, outer@[0], split(s@, ']')[0]));
    assert(is_piece(s@, outer@[1], split(s@, ']')[1]));
    let left = slice_subrange(s, outer[0].0, outer[0].1);
    let right = slice_subrange(s, outer[1].0, outer[1].1);
    if left.len() < 1 || left[0] != '[' || right.len() < 1 || right[0] != ':' {
        return None;
    }
    assert(right@.subrange(1, right@.len() as int) == right@.skip(1));
    assert(left@.subrange(1, left@.len() as int) == left@.skip(1));
    let port = match parse_number(slice_subrange(right, 1, right.len()), 65535) {
        Some(port) => port as u16,
        None => {
            return None;
        },
    };
    let within = slice_subrange(left, 1, left.len());
    let inner = split_bounds(within, '%');
    proof {
        lemma_split_len(within@, '%');
    }
    assert(is_piece(within@, inner@[0], split(within@, '%')[0]));
    let ip = match parse_ipv6_chars(slice_subrange(within, inner[0].0, inner[0].1)) {
        Some(ip) => ip,
        None => {
            return None;
        },
    };
    let scope_id = if inner.len() == 1 {
        0
    } else if inner.len() == 2 {
        assert(is_piece(within@, inner@[1], split(within@, '%')[1]));
        match parse_number(slice_subrange(within, inner[1].0, inner[1].1), u32::MAX) {
            Some(scope_id) => scope_id,
            None => {
                return None;
            },
        }
    } else {
        return None;
    };
    let r = SocketAddress::V6 { ip, port, scope_id };
    assert(r->V6_ip =~= parse_v6_address(s@)->0->V6_ip);
    Some(r)
}

impl SocketAddress {
    /// The endpoint that `s` names, if it names one.
    pub fn parse(s: &[char]) -> (r: Option<SocketAddress>)
        ensures
            r == parse_address(s@),
    {
        if s.len() > 0 && s[0] == '[' {
            parse_v6(s)
        } else {
            parse_v4(s)
        }
    }

    /// Appends the text of the endpoint to `out`.
    pub fn push_to(&self, out: &mut String)
        ensures
            final(out)@ == old(out)@ + format_address(*self),
    {
        match self {
            SocketAddress::V4 { ip, port } => {
                push_ipv4(out, ip);
                out.push(':');
                push_decimal(out, *port as u64);
                assert(final(out)@ =~= old(out)@ + format_address(*self));
            },
            SocketAddress::V6 { ip, port, scope_id } => {
                out.push('[');
                push_ipv6(out, ip);
                if *scope_id != 0 {
                    out.push('%');
                    push_decimal(out, *scope_id as u64);
                }
                out.push(']');
                out.push(':');
                push_decimal(out, *port as u64);
                assert(final(out)@ =~= old(out)@ + format_address(*self));
            },
        }
    }

    /// The text of the endpoint.
    pub fn to_string(&self) -> (s: String)
        ensures
            s@ == format_address(*self),
    {
        let mut out = String::new();
        self.push_to(&mut out);
        assert(Seq::<char>::empty() + format_address(*self) == format_address(*self));
        out
    }
}

} // verus!

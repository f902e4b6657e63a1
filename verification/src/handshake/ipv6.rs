//! IPv6 addresses as text: eight groups of hexadecimal digits joined by
//! colons, where `::` may stand for one run of zero groups and the last two
//! groups may be written as an IPv4 address.

use vstd::prelude::*;
use vstd::slice::slice_subrange;

use super::hex::{
    hex_digits, hex_value, is_hex_digit, is_hex_group, lemma_hex_digits, parse_hex_group, push_hex,
};
use super::ipv4::{
    format_ipv4, lemma_ipv4_round_trip, lemma_ipv4_shape, parse_ipv4, parse_ipv4_chars, push_ipv4,
};
use crate::decimal::is_digit;
use crate::text::{
    free_of, is_piece, lemma_split_extend, lemma_split_single, split, split_bounds,
};

verus! {

/// Where the first `::` of `s` begins, or the length of `s` if it has none.
pub open spec fn double_colon(s: Seq<char>) -> int
    decreases s.len(),
{
    if s.len() < 2 {
        s.len() as int
    } else if s[0] == ':' && s[1] == ':' {
        0
    } else {
        1 + double_colon(s.drop_first())
    }
}

/// The pieces of `s` between its colons; the empty text has none.
pub open spec fn groups_of(s: Seq<char>) -> Seq<Seq<char>> {
    if s.len() == 0 {
        Seq::<Seq<char>>::empty()
    } else {
        split(s, ':')
    }
}

/// Tells whether every piece is a group of hexadecimal digits.
pub open spec fn is_group_list(p: Seq<Seq<char>>) -> bool {
    forall|i: int| 0 <= i < p.len() ==> is_hex_group(#[trigger] p[i])
}

/// What the groups are worth, each in its place.
pub open spec fn group_values(p: Seq<Seq<char>>) -> Seq<u16> {
    Seq::new(p.len(), |i: int| hex_value(p[i]) as u16)
}

/// The two groups that an IPv4 address fills at the end of an IPv6 one.
pub open spec fn ipv4_groups(ip: [u8; 4]) -> Seq<u16> {
    seq![(ip[0] * 256 + ip[1]) as u16, (ip[2] * 256 + ip[3]) as u16]
}

/// The groups that a run of pieces stands for: every piece a group of
/// hexadecimal digits, or, where that is allowed, the last one an IPv4
/// address, which stands for two groups.
pub open spec fn part_values(part: Seq<char>, allow_v4: bool) -> Option<Seq<u16>> {
    let p = groups_of(part);
    if is_group_list(p) {
        Some(group_values(p))
    } else if allow_v4 && p.len() > 0 && is_group_list(p.drop_last()) && parse_ipv4(p.last())
        is Some {
        Some(group_values(p.drop_last()) + ipv4_groups(parse_ipv4(p.last())->0))
    } else {
        None
    }
}

/// A run of `n` zero groups.
pub open spec fn zeros(n: int) -> Seq<u16> {
    Seq::new(n as nat, |i: int| 0u16)
}

/// The eight groups of the IPv6 address that `s` names, if it names one.
/// Without `::` the text must give all eight. With `::`, which may occur
/// once and stands for at least one zero group, the groups before and after
/// it are at most seven; an IPv4 address may end the text, not the part
/// before `::`.
pub open spec fn parse_ipv6(s: Seq<char>) -> Option<Seq<u16>> {
    let k = double_colon(s);
    if k >= s.len() {
        match part_values(s, true) {
            Some(v) => if v.len() == 8 {
                Some(v)
            } else {
                None
            },
            None => None,
        }
    } else {
        match (part_values(s.take(k), false), part_values(s.skip(k + 2), true)) {
            (Some(h), Some(t)) => if h.len() + t.len() <= 7 {
                Some(h + zeros(8 - h.len() - t.len()) + t)
            } else {
                None
            },
            _ => None,
        }
    }
}

/// The groups joined by colons.
pub open spec fn join(groups: Seq<Seq<char>>) -> Seq<char>
    decreases groups.len(),
{
    if groups.len() == 0 {
        Seq::<char>::empty()
    } else if groups.len() == 1 {
        groups[0]
    } else {
        join(groups.drop_last()).push(':') + groups.last()
    }
}

/// The hexadecimal digits of each group.
pub open spec fn hex_groups(segs: Seq<u16>) -> Seq<Seq<char>> {
    Seq::new(segs.len(), |i: int| hex_digits(segs[i] as nat))
}

/// The longest run of zero groups so far, and the run that the groups end
/// with, each as its start and its length. Of runs of equal length the
/// first counts as the longest.
pub open spec fn scan_zero_runs(segs: Seq<u16>) -> ((int, int), (int, int))
    decreases segs.len(),
{
    if segs.len() == 0 {
        ((0, 0), (0, 0))
    } else {
        let (longest, current) = scan_zero_runs(segs.drop_last());
        if segs.last() == 0 {
            let run = (
                if current.1 == 0 {
                    segs.len() - 1
                } else {
                    current.0
                },
                current.1 + 1,
            );
            (
                if run.1 > longest.1 {
                    run
                } else {
                    longest
                },
                run,
            )
        } else {
            (longest, (0, 0))
        }
    }
}

/// The first of the longest runs of zero groups, as its start and its
/// length.
pub open spec fn zero_run(segs: Seq<u16>) -> (int, int) {
    scan_zero_runs(segs).0
}

/// Tells whether the groups are those of an IPv4 address mapped into IPv6:
/// five zero groups, then `ffff`.
pub open spec fn is_v4_mapped(segs: Seq<u16>) -> bool {
    &&& segs.len() == 8
    &&& segs[0] == 0
    &&& segs[1] == 0
    &&& segs[2] == 0
    &&& segs[3] == 0
    &&& segs[4] == 0
    &&& segs[5] == 0xffff
}

/// The IPv4 address in the last two groups.
pub open spec fn embedded_ipv4(segs: Seq<u16>) -> [u8; 4] {
    [(segs[6] / 256) as u8, (segs[6] % 256) as u8, (segs[7] / 256) as u8, (segs[7] % 256) as u8]
}

/// The text of `::`.
pub open spec fn gap() -> Seq<char> {
    seq![':', ':']
}

/// The text of an IPv6 address: a mapped IPv4 address as `::ffff:` and the
/// IPv4 address; any other with its longest run of two or more zero groups
/// written as `::`, and every group without leading zeros.
pub open spec fn format_ipv6(segs: Seq<u16>) -> Seq<char> {
    if is_v4_mapped(segs) {
        gap() + seq!['f', 'f', 'f', 'f', ':'] + format_ipv4(embedded_ipv4(segs))
    } else {
        let run = zero_run(segs);
        if run.1 > 1 {
            join(hex_groups(segs.take(run.0))) + gap() + join(
                hex_groups(segs.skip(run.0 + run.1)),
            )
        } else {
            join(hex_groups(segs))
        }
    }
}

/// Tells whether `a` has no colon at either end and no two colons in a row.
pub open spec fn tidy(a: Seq<char>) -> bool {
    &&& a.len() > 0 ==> a[0] != ':' && a.last() != ':'
    &&& forall|i: int| 0 <= i < a.len() - 1 ==> !(#[trigger] a[i] == ':' && a[i + 1] == ':')
}

/// Tells whether every group has a character, and none has a colon.
pub open spec fn plain_groups(groups: Seq<Seq<char>>) -> bool {
    forall|i: int|
        0 <= i < groups.len() ==> (#[trigger] groups[i]).len() > 0 && free_of(groups[i], ':')
}

/// Joined groups have their colons between them only.
pub proof fn lemma_join_tidy(groups: Seq<Seq<char>>)
    requires
        plain_groups(groups),
    ensures
        tidy(join(groups)),
        groups.len() > 0 ==> join(groups).len() > 0,
    decreases groups.len(),
{
    if groups.len() == 1 {
        assert(groups[0].len() > 0 && free_of(groups[0], ':'));
    } else if groups.len() > 1 {
        let front = groups.drop_last();
        assert forall|i: int| 0 <= i < front.len() implies (#[trigger] front[i]).len() > 0
            && free_of(front[i], ':') by {
            assert(front[i] == groups[i]);
        }
        lemma_join_tidy(front);
        let a = join(front);
        let g = groups.last();
        assert(g.len() > 0 && free_of(g, ':'));
        let s = join(groups);
        assert(s == a.push(':') + g);
        assert forall|i: int| 0 <= i < s.len() - 1 implies !(#[trigger] s[i] == ':' && s[i + 1]
            == ':') by {
            if i < a.len() - 1 {
                assert(s[i] == a[i] && s[i + 1] == a[i + 1]);
            } else if i == a.len() - 1 {
                assert(s[i] == a.last());
            } else if i == a.len() {
                assert(s[i + 1] == g[0]);
            } else {
                assert(s[i] == g[i - a.len() - 1]);
            }
        }
        assert(s[0] == a[0]);
        assert(s.last() == g.last());
    }
}

/// A text without two colons in a row has no `::`.
pub proof fn lemma_no_double_colon(a: Seq<char>)
    requires
        forall|i: int| 0 <= i < a.len() - 1 ==> !(#[trigger] a[i] == ':' && a[i + 1] == ':'),
    ensures
        double_colon(a) == a.len(),
    decreases a.len(),
{
    if a.len() >= 2 {
        let b = a.drop_first();
        assert forall|i: int| 0 <= i < b.len() - 1 implies !(#[trigger] b[i] == ':' && b[i + 1]
            == ':') by {
            assert(b[i] == a[i + 1] && b[i + 1] == a[i + 2]);
            assert(!(a[i + 1] == ':' && a[i + 2] == ':'));
        }
        assert(!(a[0] == ':' && a[1] == ':'));
        lemma_no_double_colon(b);
    }
}

/// Where a text without `::` that does not end in a colon is followed by
/// `::`, that is the first `::`.
pub proof fn lemma_double_colon_at(a: Seq<char>, b: Seq<char>)
    requires
        a.len() > 0 ==> a.last() != ':',
        forall|i: int| 0 <= i < a.len() - 1 ==> !(#[trigger] a[i] == ':' && a[i + 1] == ':'),
    ensures
        double_colon(a + gap() + b) == a.len(),
    decreases a.len(),
{
    let s = a + gap() + b;
    if a.len() == 0 {
        assert(s[0] == ':' && s[1] == ':');
    } else {
        let a1 = a.drop_first();
        assert(s.drop_first() == a1 + gap() + b);
        assert(s[0] == a[0]);
        if a.len() == 1 {
            assert(a[0] == a.last());
        } else {
            assert(s[1] == a[1]);
            assert(!(a[0] == ':' && a[1] == ':'));
            assert(a1.last() == a.last());
        }
        assert forall|i: int| 0 <= i < a1.len() - 1 implies !(#[trigger] a1[i] == ':' && a1[i
            + 1] == ':') by {
            assert(a1[i] == a[i + 1] && a1[i + 1] == a[i + 2]);
            assert(!(a[i + 1] == ':' && a[i + 2] == ':'));
        }
        lemma_double_colon_at(a1, b);
    }
}

/// Joined groups of hexadecimal digits hold such digits and colons only.
pub proof fn lemma_join_chars(groups: Seq<Seq<char>>)
    requires
        is_group_list(groups),
    ensures
        forall|i: int|
            0 <= i < join(groups).len() ==> is_hex_digit(#[trigger] join(groups)[i]) || join(
                groups,
            )[i] == ':',
    decreases groups.len(),
{
    if groups.len() == 1 {
        assert(is_hex_group(groups[0]));
    } else if groups.len() > 1 {
        let front = groups.drop_last();
        assert forall|i: int| 0 <= i < front.len() implies is_hex_group(#[trigger] front[i]) by {
            assert(front[i] == groups[i]);
        }
        lemma_join_chars(front);
        let a = join(front);
        let g = groups.last();
        assert(is_hex_group(g));
        let s = join(groups);
        assert forall|i: int| 0 <= i < s.len() implies is_hex_digit(#[trigger] s[i]) || s[i]
            == ':' by {
            if i < a.len() {
                assert(s[i] == a[i]);
            } else if i > a.len() {
                assert(s[i] == g[i - a.len() - 1]);
            }
        }
    }
}

/// The text of an IPv6 address has a character, and holds hexadecimal
/// digits, colons and dots only.
pub proof fn lemma_ipv6_chars(segs: Seq<u16>)
    requires
        segs.len() == 8,
    ensures
        format_ipv6(segs).len() > 0,
        forall|i: int|
            0 <= i < format_ipv6(segs).len() ==> is_hex_digit(#[trigger] format_ipv6(segs)[i])
                || format_ipv6(segs)[i] == ':' || format_ipv6(segs)[i] == '.',
{
    let s = format_ipv6(segs);
    if is_v4_mapped(segs) {
        let ip = embedded_ipv4(segs);
        let v4 = format_ipv4(ip);
        let front = gap() + seq!['f', 'f', 'f', 'f', ':'];
        lemma_ipv4_shape(ip);
        assert forall|i: int| 0 <= i < s.len() implies is_hex_digit(#[trigger] s[i]) || s[i]
            == ':' || s[i] == '.' by {
            if i < 7 {
                assert(s[i] == front[i]);
            } else {
                assert(s[i] == v4[i - 7]);
                assert(is_digit(v4[i - 7]) || v4[i - 7] == '.');
            }
        }
    } else {
        let run = zero_run(segs);
        lemma_zero_runs(segs);
        if run.1 > 1 {
            let a = join(hex_groups(segs.take(run.0)));
            let b = join(hex_groups(segs.skip(run.0 + run.1)));
            lemma_hex_groups(segs.take(run.0));
            lemma_hex_groups(segs.skip(run.0 + run.1));
            lemma_join_chars(hex_groups(segs.take(run.0)));
            lemma_join_chars(hex_groups(segs.skip(run.0 + run.1)));
            assert forall|i: int| 0 <= i < s.len() implies is_hex_digit(#[trigger] s[i]) || s[i]
                == ':' || s[i] == '.' by {
                if i < a.len() {
                    assert(s[i] == a[i]);
                } else if i >= a.len() + 2 {
                    assert(s[i] == b[i - a.len() - 2]);
                }
            }
        } else {
            lemma_hex_groups(segs);
            lemma_join_chars(hex_groups(segs));
            lemma_join_tidy(hex_groups(segs));
        }
    }
}

/// Joined groups split at their colons into the groups.
pub proof fn lemma_split_join(groups: Seq<Seq<char>>)
    requires
        plain_groups(groups),
    ensures
        groups_of(join(groups)) == groups,
    decreases groups.len(),
{
    lemma_join_tidy(groups);
    if groups.len() == 0 {
    } else if groups.len() == 1 {
        assert(groups[0].len() > 0 && free_of(groups[0], ':'));
        lemma_split_single(groups[0], ':');
        assert(seq![groups[0]] == groups);
    } else {
        let front = groups.drop_last();
        assert forall|i: int| 0 <= i < front.len() implies (#[trigger] front[i]).len() > 0
            && free_of(front[i], ':') by {
            assert(front[i] == groups[i]);
        }
        lemma_split_join(front);
        lemma_join_tidy(front);
        let g = groups.last();
        assert(g.len() > 0 && free_of(g, ':'));
        lemma_split_extend(join(front), g, ':');
        assert(front.push(g) == groups);
    }
}

/// The digits of groups are plain groups of hexadecimal digits, and are
/// worth the groups.
pub proof fn lemma_hex_groups(segs: Seq<u16>)
    ensures
        plain_groups(hex_groups(segs)),
        is_group_list(hex_groups(segs)),
        group_values(hex_groups(segs)) == segs,
{
    let p = hex_groups(segs);
    assert forall|i: int| 0 <= i < p.len() implies (#[trigger] p[i]).len() > 0 && free_of(
        p[i],
        ':',
    ) && is_hex_group(p[i]) && hex_value(p[i]) == segs[i] by {
        lemma_hex_digits(segs[i] as nat);
        let g = p[i];
        assert forall|k: int| 0 <= k < g.len() implies g[k] != ':' by {
            assert(is_hex_digit(g[k]));
        }
    }
    assert(group_values(p) =~= segs);
}

/// Reading the joined digits of groups gives the groups back.
pub proof fn lemma_part_round_trip(segs: Seq<u16>, allow_v4: bool)
    ensures
        part_values(join(hex_groups(segs)), allow_v4) == Some(segs),
{
    lemma_hex_groups(segs);
    lemma_split_join(hex_groups(segs));
}

/// The runs that a scan ends with are runs of zero groups within the
/// groups, and the last one reaches to the end.
pub proof fn lemma_zero_runs(segs: Seq<u16>)
    ensures
        ({
            let (longest, current) = scan_zero_runs(segs);
            &&& 0 <= longest.0 && 0 <= longest.1 && longest.0 + longest.1 <= segs.len()
            &&& 0 <= current.0 && 0 <= current.1 && current.0 + current.1 <= segs.len()
            &&& current.1 > 0 ==> current.0 + current.1 == segs.len()
            &&& forall|i: int| longest.0 <= i < longest.0 + longest.1 ==> segs[i] == 0
            &&& forall|i: int| current.0 <= i < current.0 + current.1 ==> segs[i] == 0
        }),
    decreases segs.len(),
{
    if segs.len() > 0 {
        let front = segs.drop_last();
        lemma_zero_runs(front);
        let (longest, current) = scan_zero_runs(front);
        assert forall|i: int| longest.0 <= i < longest.0 + longest.1 implies segs[i] == 0 by {
            assert(front[i] == segs[i]);
        }
        assert forall|i: int| current.0 <= i < current.0 + current.1 implies segs[i] == 0 by {
            assert(front[i] == segs[i]);
        }
    }
}

/// The group `ffff` is worth 65535.
proof fn lemma_ffff()
    ensures
        is_hex_group(seq!['f', 'f', 'f', 'f']),
        hex_value(seq!['f', 'f', 'f', 'f']) == 0xffff,
        free_of(seq!['f', 'f', 'f', 'f'], ':'),
{
    let mark = seq!['f', 'f', 'f', 'f'];
    assert forall|i: int| 0 <= i < mark.len() implies is_hex_digit(#[trigger] mark[i]) by {
        assert(mark[i] == 'f');
    }
    let m3 = mark.drop_last();
    let m2 = m3.drop_last();
    let m1 = m2.drop_last();
    let m0 = m1.drop_last();
    assert(m0.len() == 0);
    assert(hex_value(m0) == 0);
    assert(m1.last() == 'f');
    assert(hex_value(m1) == 15);
    assert(m2.last() == 'f');
    assert(hex_value(m2) == 255);
    assert(m3.last() == 'f');
    assert(hex_value(m3) == 4095);
    assert(mark.last() == 'f');
}

/// The part after `::` of a mapped IPv4 address is read as `ffff` and the
/// two groups of the IPv4 address.
proof fn lemma_mapped_tail(ip: [u8; 4])
    ensures
        part_values(seq!['f', 'f', 'f', 'f'].push(':') + format_ipv4(ip), true) == Some(
            seq![0xffffu16] + ipv4_groups(ip),
        ),
{
    let mark = seq!['f', 'f', 'f', 'f'];
    let v4 = format_ipv4(ip);
    let tail = mark.push(':') + v4;
    lemma_ffff();
    lemma_ipv4_shape(ip);
    lemma_ipv4_round_trip(ip);
    assert(free_of(v4, ':')) by {
        assert forall|i: int| 0 <= i < v4.len() implies v4[i] != ':' by {
            assert(is_digit(v4[i]) || v4[i] == '.');
        }
    }
    lemma_split_single(mark, ':');
    lemma_split_extend(mark, v4, ':');
    let p = groups_of(tail);
    assert(p == seq![mark, v4]);
    assert(!is_hex_group(v4)) by {
        let i = choose|i: int| 0 <= i < v4.len() && v4[i] == '.';
        assert(!is_hex_digit(v4[i]));
    }
    assert(!is_group_list(p)) by {
        assert(p[1] == v4);
    }
    assert(p.drop_last() == seq![mark]);
    assert(p.last() == v4);
    assert(is_group_list(p.drop_last())) by {
        assert forall|i: int| 0 <= i < p.drop_last().len() implies is_hex_group(
            #[trigger] p.drop_last()[i],
        ) by {
            assert(p.drop_last()[i] == mark);
        }
    }
    assert(group_values(p.drop_last()) =~= seq![0xffffu16]);
}

/// Reading the text of a mapped IPv4 address gives its groups back.
proof fn lemma_round_trip_mapped(segs: Seq<u16>)
    requires
        is_v4_mapped(segs),
    ensures
        parse_ipv6(format_ipv6(segs)) == Some(segs),
{
    let text = format_ipv6(segs);
    let ip = embedded_ipv4(segs);
    let tail = seq!['f', 'f', 'f', 'f'].push(':') + format_ipv4(ip);
    lemma_mapped_tail(ip);
    assert(text[0] == ':' && text[1] == ':');
    assert(double_colon(text) == 0);
    assert(text.take(0) == Seq::<char>::empty());
    assert(text.skip(2) == tail);
    assert(part_values(text.take(0), false) == Some(Seq::<u16>::empty()));
    let t = seq![0xffffu16] + ipv4_groups(ip);
    assert(t.len() == 3);
    assert(ipv4_groups(ip)[0] == segs[6]);
    assert(ipv4_groups(ip)[1] == segs[7]);
    assert(Seq::<u16>::empty() + zeros(5) + t =~= segs);
}

/// Reading a text with its zero run written as `::` gives the groups back.
proof fn lemma_round_trip_gap(segs: Seq<u16>, start: int, len: int)
    requires
        segs.len() == 8,
        0 <= start,
        1 <= len,
        start + len <= 8,
        forall|i: int| start <= i < start + len ==> segs[i] == 0,
    ensures
        parse_ipv6(
            join(hex_groups(segs.take(start))) + gap() + join(hex_groups(segs.skip(start + len))),
        ) == Some(segs),
{
    let head = segs.take(start);
    let tail = segs.skip(start + len);
    let a = join(hex_groups(head));
    let b = join(hex_groups(tail));
    let text = a + gap() + b;
    lemma_hex_groups(head);
    lemma_hex_groups(tail);
    lemma_join_tidy(hex_groups(head));
    lemma_double_colon_at(a, b);
    assert(text.take(a.len() as int) == a);
    assert(text.skip(a.len() as int + 2) == b);
    lemma_part_round_trip(head, false);
    lemma_part_round_trip(tail, true);
    assert(head + zeros(8 - head.len() - tail.len()) + tail =~= segs);
}

/// Reading a text of eight groups gives the groups back.
proof fn lemma_round_trip_plain(segs: Seq<u16>)
    requires
        segs.len() == 8,
    ensures
        parse_ipv6(join(hex_groups(segs))) == Some(segs),
{
    lemma_hex_groups(segs);
    lemma_join_tidy(hex_groups(segs));
    lemma_no_double_colon(join(hex_groups(segs)));
    lemma_part_round_trip(segs, true);
}

/// Reading the text of an IPv6 address gives its eight groups back.
pub proof fn lemma_ipv6_round_trip(segs: Seq<u16>)
    requires
        segs.len() == 8,
    ensures
        parse_ipv6(format_ipv6(segs)) == Some(segs),
{
    if is_v4_mapped(segs) {
        lemma_round_trip_mapped(segs);
    } else {
        let run = zero_run(segs);
        lemma_zero_runs(segs);
        if run.1 > 1 {
            lemma_round_trip_gap(segs, run.0, run.1);
        } else {
            lemma_round_trip_plain(segs);
        }
    }
}

/// Where the first `::` of `s` begins.
fn find_double_colon(s: &[char]) -> (k: usize)
    ensures
        k == double_colon(s@),
        k == s@.len() || k + 2 <= s@.len(),
{
    let n: usize = s.len();
    let mut i: usize = 0;
    assert(s@.skip(0) == s@);
    while n - i > 1 && !(s[i] == ':' && s[i + 1] == ':')
        invariant
            i <= n,
            n == s@.len(),
            double_colon(s@) == i + double_colon(s@.skip(i as int)),
        decreases n - i,
    {
        assert(s@.skip(i as int).drop_first() == s@.skip(i + 1));
        assert(s@.skip(i as int)[0] == s@[i as int]);
        assert(s@.skip(i as int)[1] == s@[i + 1]);
        i += 1;
    }
    if n - i > 1 {
        assert(s@.skip(i as int)[0] == s@[i as int]);
        assert(s@.skip(i as int)[1] == s@[i + 1]);
        i
    } else {
        n
    }
}

/// The groups that a run of pieces stands for.
fn parse_part(s: &[char], allow_v4: bool) -> (r: Option<Vec<u16>>)
    ensures
        r is Some <==> part_values(s@, allow_v4) is Some,
        r matches Some(v) ==> v@ == part_values(s@, allow_v4)->0,
{
    let mut out: Vec<u16> = Vec::new();
    if s.len() == 0 {
        assert(group_values(groups_of(s@)) =~= out@);
        return Some(out);
    }
    let bounds = split_bounds(s, ':');
    let ghost p = split(s@, ':');
    let n: usize = bounds.len();
    let mut i: usize = 0;
    while i < n
        invariant
            i <= n,
            n == bounds@.len(),
            n == p.len(),
            p == groups_of(s@),
            forall|k: int| 0 <= k < n ==> is_piece(s@, #[trigger] bounds@[k], p[k]),
            forall|j: int| 0 <= j < i ==> is_hex_group(#[trigger] p[j]),
            out@ == Seq::new(i as nat, |j: int| hex_value(p[j]) as u16),
        decreases n - i,
    {
        assert(is_piece(s@, bounds@[i as int], p[i as int]));
        let piece = slice_subrange(s, bounds[i].0, bounds[i].1);
        match parse_hex_group(piece) {
            Some(v) => {
                out.push(v);
                assert(out@ =~= Seq::new((i + 1) as nat, |j: int| hex_value(p[j]) as u16));
            },
            None => {
                assert(!is_hex_group(p[i as int]));
                assert(!is_group_list(p));
                if allow_v4 && i + 1 == n {
                    assert(p.drop_last() =~= p.take(i as int));
                    assert(is_group_list(p.drop_last()));
                    assert(p.last() == p[i as int]);
                    assert(group_values(p.drop_last()) =~= out@);
                    match parse_ipv4_chars(piece) {
                        Some(ip) => {
                            out.push(ip[0] as u16 * 256 + ip[1] as u16);
                            out.push(ip[2] as u16 * 256 + ip[3] as u16);
                            assert(out@ =~= group_values(p.drop_last()) + ipv4_groups(ip));
                            return Some(out);
                        },
                        None => {
                            return None;
                        },
                    }
                } else {
                    if i + 1 < n {
                        assert(p.drop_last()[i as int] == p[i as int]);
                        assert(!is_group_list(p.drop_last()));
                    }
                    return None;
                }
            },
        }
        i += 1;
    }
    assert(is_group_list(p));
    assert(out@ =~= group_values(p));
    Some(out)
}

/// The eight groups in `v`, as an array.
fn groups_array(v: &Vec<u16>) -> (ip: [u16; 8])
    requires
        v@.len() == 8,
    ensures
        ip@ == v@,
{
    let ip = [v[0], v[1], v[2], v[3], v[4], v[5], v[6], v[7]];
    assert(ip@ =~= v@);
    ip
}

/// The eight groups of the IPv6 address that `s` names, if it names one.
pub fn parse_ipv6_chars(s: &[char]) -> (r: Option<[u16; 8]>)
    ensures
        r is Some <==> parse_ipv6(s@) is Some,
        r matches Some(ip) ==> ip@ == parse_ipv6(s@)->0,
{
    let n: usize = s.len();
    let k = find_double_colon(s);
    if k >= n {
        match parse_part(s, true) {
            Some(v) => if v.len() == 8 {
                Some(groups_array(&v))
            } else {
                None
            },
            None => None,
        }
    } else {
        assert(s@.subrange(0, k as int) == s@.take(k as int));
        assert(s@.subrange(k + 2, n as int) == s@.skip(k + 2));
        let head = parse_part(slice_subrange(s, 0, k), false);
        let tail = parse_part(slice_subrange(s, k + 2, n), true);
        match (head, tail) {
            (Some(h), Some(t)) => {
                if h.len() > 7 || t.len() > 7 - h.len() {
                    return None;
                }
                let fill: usize = 8 - h.len() - t.len();
                let mut full: Vec<u16> = h;
                let ghost front = full@;
                let mut j: usize = 0;
                while j < fill
                    invariant
                        j <= fill,
                        full@ == front + zeros(j as int),
                    decreases fill - j,
                {
                    full.push(0);
                    assert(full@ =~= front + zeros(j + 1));
                    j += 1;
                }
                let mut j: usize = 0;
                while j < t.len()
                    invariant
                        j <= t@.len(),
                        full@ == front + zeros(fill as int) + t@.take(j as int),
                    decreases t@.len() - j,
                {
                    full.push(t[j]);
                    assert(full@ =~= front + zeros(fill as int) + t@.take(j + 1));
                    j += 1;
                }
                assert(t@.take(t@.len() as int) == t@);
                Some(groups_array(&full))
            },
            _ => None,
        }
    }
}

/// The first of the longest runs of zero groups.
fn find_zero_run(ip: &[u16; 8]) -> (run: (usize, usize))
    ensures
        (run.0 as int, run.1 as int) == zero_run(ip@),
        run.0 + run.1 <= 8,
{
    let mut longest: (usize, usize) = (0, 0);
    let mut current: (usize, usize) = (0, 0);
    let mut i: usize = 0;
    assert(ip@.take(0) == Seq::<u16>::empty());
    while i < 8
        invariant
            i <= 8,
            ip@.len() == 8,
            ((longest.0 as int, longest.1 as int), (current.0 as int, current.1 as int))
                == scan_zero_runs(ip@.take(i as int)),
        decreases 8 - i,
    {
        proof {
            lemma_zero_runs(ip@.take(i as int));
            assert(ip@.take(i + 1).drop_last() == ip@.take(i as int));
            assert(ip@.take(i + 1).last() == ip@[i as int]);
        }
        if ip[i] == 0 {
            if current.1 == 0 {
                current = (i, 1);
            } else {
                current = (current.0, current.1 + 1);
            }
            if current.1 > longest.1 {
                longest = current;
            }
        } else {
            current = (0, 0);
        }
        i += 1;
    }
    assert(ip@.take(8) == ip@);
    proof {
        lemma_zero_runs(ip@);
    }
    longest
}

/// Appends the groups from `from` up to `to`, joined by colons, to `out`.
fn push_groups(out: &mut String, ip: &[u16; 8], from: usize, to: usize)
    requires
        from <= to <= 8,
    ensures
        final(out)@ == old(out)@ + join(hex_groups(ip@.subrange(from as int, to as int))),
{
    let ghost before = out@;
    let mut i: usize = from;
    assert(join(hex_groups(ip@.subrange(from as int, from as int))) == Seq::<char>::empty());
    assert(before + Seq::<char>::empty() == before);
    while i < to
        invariant
            from <= i <= to <= 8,
            ip@.len() == 8,
            out@ == before + join(hex_groups(ip@.subrange(from as int, i as int))),
        decreases to - i,
    {
        let ghost done = hex_groups(ip@.subrange(from as int, i as int));
        let ghost next = hex_groups(ip@.subrange(from as int, i + 1));
        assert(next.drop_last() =~= done);
        assert(next.last() == hex_digits(ip@[i as int] as nat));
        if i > from {
            out.push(':');
        }
        push_hex(out, ip[i]);
        assert(out@ =~= before + join(next));
        i += 1;
    }
}

/// Appends the text of an IPv6 address to `out`.
pub fn push_ipv6(out: &mut String, ip: &[u16; 8])
    ensures
        final(out)@ == old(out)@ + format_ipv6(ip@),
{
    if ip[0] == 0 && ip[1] == 0 && ip[2] == 0 && ip[3] == 0 && ip[4] == 0 && ip[5] == 0xffff {
        out.push(':');
        out.push(':');
        out.push('f');
        out.push('f');
        out.push('f');
        out.push('f');
        out.push(':');
        let v4: [u8; 4] = [
            (ip[6] / 256) as u8,
            (ip[6] % 256) as u8,
            (ip[7] / 256) as u8,
            (ip[7] % 256) as u8,
        ];
        assert(v4 =~= embedded_ipv4(ip@));
        push_ipv4(out, &v4);
        assert(final(out)@ =~= old(out)@ + format_ipv6(ip@));
    } else {
        let run = find_zero_run(ip);
        if run.1 > 1 {
            assert(ip@.subrange(0, run.0 as int) == ip@.take(run.0 as int));
            assert(ip@.subrange(run.0 + run.1, 8) == ip@.skip(run.0 + run.1));
            push_groups(out, ip, 0, run.0);
            out.push(':');
            out.push(':');
            push_groups(out, ip, run.0 + run.1, 8);
            assert(final(out)@ =~= old(out)@ + format_ipv6(ip@));
        } else {
            assert(ip@.subrange(0, 8) == ip@);
            push_groups(out, ip, 0, 8);
        }
    }
}

} // verus!

//! Parsing a host string as a literal IP address.
//!
//! A host that is already a literal address lets establishment skip
//! the resolver entirely. Two grammars are read: the strict dotted
//! quad (four runs of one to three decimal digits, each at most 255,
//! no leading zeros), and the IPv6 text form (colon-separated groups
//! of up to four hexadecimal digits, one optional double colon for
//! the missing zero groups, an optional embedded dotted quad as the
//! final 32 bits, and optional brackets around the whole).

use vstd::prelude::*;

use crate::addr::HostIp;

verus! {

/// ASCII '.'
pub open spec fn dot() -> u8 {
    46
}

/// ASCII decimal digit.
pub open spec fn is_dec_digit(c: u8) -> bool {
    48 <= c <= 57
}

/// The end of the run of decimal digits starting at `p`.
pub open spec fn digit_run_end(s: Seq<u8>, p: int) -> int
    decreases s.len() - p when p <= s.len()
{
    if p < s.len() && is_dec_digit(s[p]) {
        digit_run_end(s, p + 1)
    } else {
        p
    }
}

/// The number the decimal digits of `s` spell.
pub open spec fn digits_val(s: Seq<u8>) -> int
    decreases s.len(),
{
    if s.len() == 0 {
        0
    } else {
        digits_val(s.drop_last()) * 10 + (s.last() - 48)
    }
}

/// A valid octet text: one to three decimal digits, no leading zero,
/// value at most 255.
pub open spec fn is_octet_text(s: Seq<u8>) -> bool {
    &&& 1 <= s.len() <= 3
    &&& (forall|k: int| 0 <= k < s.len() ==> is_dec_digit(#[trigger] s[k]))
    &&& (s.len() > 1 ==> s[0] != 48)
    &&& digits_val(s) <= 255
}

/// The dotted-quad reading of `s`: four octet texts separated by
/// dots, nothing more; the value is the big-endian composition.
pub open spec fn ipv4_of(s: Seq<u8>) -> Option<u32> {
    let e1 = digit_run_end(s, 0);
    let c1 = s.subrange(0, e1);
    if !is_octet_text(c1) || e1 >= s.len() || s[e1] != dot() {
        None
    } else {
        let e2 = digit_run_end(s, e1 + 1);
        let c2 = s.subrange(e1 + 1, e2);
        if !is_octet_text(c2) || e2 >= s.len() || s[e2] != dot() {
            None
        } else {
            let e3 = digit_run_end(s, e2 + 1);
            let c3 = s.subrange(e2 + 1, e3);
            if !is_octet_text(c3) || e3 >= s.len() || s[e3] != dot() {
                None
            } else {
                let e4 = digit_run_end(s, e3 + 1);
                let c4 = s.subrange(e3 + 1, e4);
                if !is_octet_text(c4) || e4 != s.len() {
                    None
                } else {
                    Some(
                        (digits_val(c1) * 0x1000000 + digits_val(c2) * 0x10000 + digits_val(c3)
                            * 0x100 + digits_val(c4)) as u32,
                    )
                }
            }
        }
    }
}

/// ASCII ':'
pub open spec fn colon() -> u8 {
    58
}

/// ASCII hexadecimal digit.
pub open spec fn is_hex_digit(c: u8) -> bool {
    (48 <= c <= 57) || (97 <= c <= 102) || (65 <= c <= 70)
}

/// The value of one hexadecimal digit.
pub open spec fn hex_digit_val(c: u8) -> int {
    if 48 <= c <= 57 {
        c - 48
    } else if 97 <= c <= 102 {
        c - 87
    } else {
        c - 55
    }
}

/// The end of the run of hexadecimal digits starting at `p`.
pub open spec fn hex_run_end(s: Seq<u8>, p: int) -> int
    decreases s.len() - p when p <= s.len()
{
    if p < s.len() && is_hex_digit(s[p]) {
        hex_run_end(s, p + 1)
    } else {
        p
    }
}

/// The number the hexadecimal digits of `s` spell.
pub open spec fn hex_val(s: Seq<u8>) -> int
    decreases s.len(),
{
    if s.len() == 0 {
        0
    } else {
        hex_val(s.drop_last()) * 16 + hex_digit_val(s.last())
    }
}

/// A valid group text: one to four hexadecimal digits.
pub open spec fn is_group_text(s: Seq<u8>) -> bool {
    &&& 1 <= s.len() <= 4
    &&& (forall|k: int| 0 <= k < s.len() ==> is_hex_digit(#[trigger] s[k]))
}

/// The colon-separated group list starting at `p` and running to the
/// end of `s`: the group values, or `None` when the text is not such
/// a list. With `allow_v4`, the whole rest may instead be a dotted
/// quad, standing for the two final groups.
pub open spec fn groups_from(s: Seq<u8>, p: int, allow_v4: bool) -> Option<Seq<u16>>
    decreases s.len() - p when 0 <= p <= s.len() via groups_from_decreases
{
    if allow_v4 && ipv4_of(s.subrange(p, s.len() as int)) is Some {
        let v = ipv4_of(s.subrange(p, s.len() as int)).unwrap();
        Some(seq![(v / 0x10000) as u16, (v % 0x10000) as u16])
    } else {
        let e = hex_run_end(s, p);
        let chunk = s.subrange(p, e);
        if !is_group_text(chunk) {
            None
        } else if e == s.len() {
            Some(seq![hex_val(chunk) as u16])
        } else if s[e] == colon() {
            match groups_from(s, e + 1, allow_v4) {
                Some(rest) => Some(seq![hex_val(chunk) as u16] + rest),
                None => None,
            }
        } else {
            None
        }
    }
}

#[via_fn]
proof fn groups_from_decreases(s: Seq<u8>, p: int, allow_v4: bool) {
    lemma_hex_run_end_bounds(s, p);
}

proof fn lemma_hex_run_end_bounds(s: Seq<u8>, p: int)
    requires
        0 <= p <= s.len(),
    ensures
        p <= hex_run_end(s, p) <= s.len(),
    decreases s.len() - p,
{
    if p < s.len() && is_hex_digit(s[p]) {
        lemma_hex_run_end_bounds(s, p + 1);
    }
}

/// The first position at or after `p` where a double colon starts;
/// the length when there is none.
pub open spec fn find_double_colon(s: Seq<u8>, p: int) -> int
    decreases s.len() - p when 0 <= p <= s.len()
{
    if p + 1 < s.len() {
        if s[p] == colon() && s[p + 1] == colon() {
            p
        } else {
            find_double_colon(s, p + 1)
        }
    } else {
        s.len() as int
    }
}

/// The big-endian composition of 16-bit groups.
pub open spec fn groups_val(g: Seq<u16>) -> int
    decreases g.len(),
{
    if g.len() == 0 {
        0
    } else {
        groups_val(g.drop_last()) * 0x10000 + g.last()
    }
}

/// A sequence of zero groups.
pub open spec fn zero_groups(n: nat) -> Seq<u16> {
    Seq::<u16>::new(n, |i: int| 0u16)
}

/// The IPv6 reading of `s`: eight colon-separated groups, or a head
/// and a tail around one double colon standing for the missing zero
/// groups (at least one); a dotted quad may stand for the two final
/// groups. The value is the big-endian composition.
pub open spec fn ipv6_of(s: Seq<u8>) -> Option<u128> {
    let dc = find_double_colon(s, 0);
    if dc == s.len() {
        match groups_from(s, 0, true) {
            Some(g) => if g.len() == 8 {
                Some(groups_val(g) as u128)
            } else {
                None
            },
            None => None,
        }
    } else {
        let head = s.subrange(0, dc);
        let tail = s.subrange(dc + 2, s.len() as int);
        let hg = if head.len() == 0 {
            Some(Seq::<u16>::empty())
        } else {
            groups_from(head, 0, false)
        };
        let tg = if tail.len() == 0 {
            Some(Seq::<u16>::empty())
        } else {
            groups_from(tail, 0, true)
        };
        match (hg, tg) {
            (Some(h), Some(t)) => if h.len() + t.len() <= 7 {
                Some(groups_val(h + zero_groups((8 - h.len() - t.len()) as nat) + t) as u128)
            } else {
                None
            },
            _ => None,
        }
    }
}

/// The end of the run of `[` starting at `p`.
pub open spec fn bracket_run_end(s: Seq<u8>, p: int) -> int
    decreases s.len() - p when p <= s.len()
{
    if p < s.len() && s[p] == 91 {
        bracket_run_end(s, p + 1)
    } else {
        p
    }
}

/// The start of the run of `]` that ends `s`.
pub open spec fn close_run_start(s: Seq<u8>, q: int) -> int
    decreases q when 0 <= q <= s.len()
{
    if q > 0 && s[q - 1] == 93 {
        close_run_start(s, q - 1)
    } else {
        q
    }
}

/// The host bytes with bracket wrapping stripped: every leading `[`
/// and, after that, every trailing `]` removed.
pub open spec fn strip_brackets(s: Seq<u8>) -> Seq<u8> {
    let t = s.skip(bracket_run_end(s, 0));
    t.take(close_run_start(t, t.len() as int))
}

/// The literal-IP reading of a host string's bytes: a dotted quad,
/// else an IPv6 literal (with or without brackets).
pub open spec fn literal_ip_of(s: Seq<u8>) -> Option<HostIp> {
    match ipv4_of(s) {
        Some(v) => Some(HostIp::V4(v)),
        None => match ipv6_of(strip_brackets(s)) {
            Some(v) => Some(HostIp::V6(v)),
            None => None,
        },
    }
}

proof fn lemma_digit_run_end(s: Seq<u8>, p: int, i: int)
    requires
        0 <= p <= i <= s.len(),
        forall|k: int| p <= k < i ==> is_dec_digit(#[trigger] s[k]),
        i == s.len() || !is_dec_digit(s[i]),
    ensures
        digit_run_end(s, p) == i,
    decreases i - p,
{
    if p < i {
        lemma_digit_run_end(s, p + 1, i);
    }
}

/// Scan the octet text starting at `p`: its end, its value (when it
/// is a valid octet) and whether it is one.
fn scan_octet(s: &[u8], p: usize) -> (r: (usize, u32, bool))
    requires
        p <= s@.len(),
    ensures
        r.0 == digit_run_end(s@, p as int),
        p <= r.0 <= s@.len(),
        r.2 == is_octet_text(s@.subrange(p as int, r.0 as int)),
        r.2 ==> r.1 == digits_val(s@.subrange(p as int, r.0 as int)),
{
    let mut i: usize = p;
    let mut val: u32 = 0;
    while i < s.len() && 48 <= s[i] && s[i] <= 57
        invariant
            p <= i <= s@.len(),
            forall|k: int| p <= k < i ==> is_dec_digit(#[trigger] s@[k]),
            i - p <= 3 ==> val == digits_val(s@.subrange(p as int, i as int)),
            i - p == 0 ==> val == 0,
            i - p == 1 ==> val <= 9,
            i - p == 2 ==> val <= 99,
            val <= 999,
        decreases s@.len() - i,
    {
        proof {
            assert(s@.subrange(p as int, i + 1).drop_last() =~= s@.subrange(p as int, i as int));
            assert(s@.subrange(p as int, i + 1).last() == s@[i as int]);
        }
        if i - p < 3 {
            val = val * 10 + ((s[i] - 48) as u32);
        }
        i = i + 1;
    }
    proof {
        lemma_digit_run_end(s@, p as int, i as int);
    }
    let len = i - p;
    let valid = if len < 1 || len > 3 {
        false
    } else if len > 1 && s[p] == 48 {
        false
    } else {
        val <= 255
    };
    proof {
        let c = s@.subrange(p as int, i as int);
        if 1 <= len <= 3 {
            assert(val == digits_val(c));
        }
        if len > 1 {
            assert(c[0] == s@[p as int]);
        }
    }
    (i, val, valid)
}

/// Parse the strict dotted-quad form; exactly the strings the
/// grammar [`ipv4_of`] admits are accepted, with that value.
pub fn parse_ipv4(s: &[u8]) -> (r: Option<u32>)
    ensures
        r == ipv4_of(s@),
{
    let (e1, v1, ok1) = scan_octet(s, 0);
    if !ok1 || e1 >= s.len() || s[e1] != 46 {
        return None;
    }
    let (e2, v2, ok2) = scan_octet(s, e1 + 1);
    if !ok2 || e2 >= s.len() || s[e2] != 46 {
        return None;
    }
    let (e3, v3, ok3) = scan_octet(s, e2 + 1);
    if !ok3 || e3 >= s.len() || s[e3] != 46 {
        return None;
    }
    let (e4, v4, ok4) = scan_octet(s, e3 + 1);
    if !ok4 || e4 != s.len() {
        return None;
    }
    Some(v1 * 0x1000000 + v2 * 0x10000 + v3 * 0x100 + v4)
}

proof fn lemma_hex_run_end_at(s: Seq<u8>, p: int, i: int)
    requires
        0 <= p <= i <= s.len(),
        forall|k: int| p <= k < i ==> is_hex_digit(#[trigger] s[k]),
        i == s.len() || !is_hex_digit(s[i]),
    ensures
        hex_run_end(s, p) == i,
    decreases i - p,
{
    if p < i {
        lemma_hex_run_end_at(s, p + 1, i);
    }
}

/// Scan the group text starting at `p`: its end, its value (when it
/// is a valid group) and whether it is one.
fn scan_hex_group(s: &[u8], p: usize) -> (r: (usize, u16, bool))
    requires
        p <= s@.len(),
    ensures
        r.0 == hex_run_end(s@, p as int),
        p <= r.0 <= s@.len(),
        r.2 == is_group_text(s@.subrange(p as int, r.0 as int)),
        r.2 ==> r.1 == hex_val(s@.subrange(p as int, r.0 as int)),
{
    let mut i: usize = p;
    let mut val: u32 = 0;
    while i < s.len() && ((48 <= s[i] && s[i] <= 57) || (97 <= s[i] && s[i] <= 102) || (65 <= s[i]
        && s[i] <= 70))
        invariant
            p <= i <= s@.len(),
            forall|k: int| p <= k < i ==> is_hex_digit(#[trigger] s@[k]),
            i - p <= 4 ==> val == hex_val(s@.subrange(p as int, i as int)),
            i - p == 0 ==> val == 0,
            i - p == 1 ==> val <= 0xf,
            i - p == 2 ==> val <= 0xff,
            i - p == 3 ==> val <= 0xfff,
            val <= 0xffff,
        decreases s@.len() - i,
    {
        proof {
            assert(s@.subrange(p as int, i + 1).drop_last() =~= s@.subrange(p as int, i as int));
            assert(s@.subrange(p as int, i + 1).last() == s@[i as int]);
        }
        if i - p < 4 {
            let c = s[i];
            let dv: u32 = if c <= 57 {
                (c - 48) as u32
            } else if c >= 97 {
                (c - 87) as u32
            } else {
                (c - 55) as u32
            };
            val = val * 16 + dv;
        }
        i = i + 1;
    }
    proof {
        lemma_hex_run_end_at(s@, p as int, i as int);
    }
    let len = i - p;
    let valid = 1 <= len && len <= 4;
    (i, val as u16, valid)
}

/// Parse the colon-separated group list running from `p` to the end;
/// exactly the lists [`groups_from`] admits, with those values.
fn parse_groups(s: &[u8], p: usize, allow_v4: bool) -> (r: Option<Vec<u16>>)
    requires
        p <= s@.len(),
    ensures
        match r {
            Some(v) => groups_from(s@, p as int, allow_v4) == Some(v@),
            None => groups_from(s@, p as int, allow_v4) is None,
        },
    decreases s@.len() - p,
{
    if allow_v4 {
        let rest = &s[p..s.len()];
        match parse_ipv4(rest) {
            Some(v) => {
                return Some(vec![(v / 0x10000) as u16, (v % 0x10000) as u16]);
            },
            None => {},
        }
    }
    let (e, val, ok) = scan_hex_group(s, p);
    if !ok {
        return None;
    }
    if e == s.len() {
        return Some(vec![val]);
    }
    if s[e] == 58 {
        match parse_groups(s, e + 1, allow_v4) {
            Some(mut rest) => {
                let ghost rest_groups = rest@;
                let mut out: Vec<u16> = Vec::new();
                out.push(val);
                out.append(&mut rest);
                proof {
                    assert(out@ =~= seq![val] + rest_groups);
                }
                Some(out)
            },
            None => None,
        }
    } else {
        None
    }
}

/// The position of the first double colon; the length when none.
fn find_dc(s: &[u8]) -> (r: usize)
    ensures
        r == find_double_colon(s@, 0),
        r <= s@.len(),
        r < s@.len() ==> r + 1 < s@.len() && s@[r as int] == colon() && s@[r + 1] == colon(),
{
    let mut i: usize = 0;
    while s.len() > 0 && i < s.len() - 1
        invariant
            i <= s@.len(),
            find_double_colon(s@, 0) == find_double_colon(s@, i as int),
        decreases s@.len() - i,
    {
        if s[i] == 58 && s[i + 1] == 58 {
            return i;
        }
        i = i + 1;
    }
    s.len()
}

/// The big-endian composition of exactly eight groups.
fn combine_groups(g: &Vec<u16>) -> (r: u128)
    requires
        g@.len() == 8,
    ensures
        r == groups_val(g@),
{
    let mut acc: u128 = 0;
    let mut i: usize = 0;
    while i < g.len()
        invariant
            g@.len() == 8,
            i <= 8,
            acc == groups_val(g@.take(i as int)),
            i == 0 ==> acc == 0,
            i == 1 ==> acc <= 0xffff,
            i == 2 ==> acc <= 0xffffffff,
            i == 3 ==> acc <= 0xffffffffffff,
            i == 4 ==> acc <= 0xffffffffffffffff,
            i == 5 ==> acc <= 0xffffffffffffffffffff,
            i == 6 ==> acc <= 0xffffffffffffffffffffffff,
            i == 7 ==> acc <= 0xffffffffffffffffffffffffffff,
        decreases 8 - i,
    {
        proof {
            assert(g@.take(i + 1).drop_last() =~= g@.take(i as int));
            assert(g@.take(i + 1).last() == g@[i as int]);
        }
        acc = acc * 0x10000 + (g[i] as u128);
        i = i + 1;
    }
    proof {
        assert(g@.take(8) =~= g@);
    }
    acc
}

/// Unwrap a bracketed host: every leading `[`, then every trailing
/// `]`, is removed.
fn strip_bracket_slice<'a>(s: &'a [u8]) -> (r: &'a [u8])
    ensures
        r@ == strip_brackets(s@),
{
    let mut a: usize = 0;
    while a < s.len() && s[a] == 91
        invariant
            a <= s@.len(),
            bracket_run_end(s@, 0) == bracket_run_end(s@, a as int),
        decreases s@.len() - a,
    {
        a = a + 1;
    }
    let ghost t = s@.skip(a as int);
    let mut b: usize = s.len();
    while b > a && s[b - 1] == 93
        invariant
            a <= b <= s@.len(),
            t == s@.skip(a as int),
            close_run_start(t, t.len() as int) == close_run_start(t, b - a),
        decreases b,
    {
        proof {
            assert(t[b - 1 - a] == s@[b - 1]);
        }
        b = b - 1;
    }
    proof {
        assert(b > a ==> t[b - 1 - a] == s@[b - 1]);
        assert(close_run_start(t, b - a) == b - a);
        assert(t.take(b - a) =~= s@.subrange(a as int, b as int));
    }
    &s[a..b]
}

/// Parse an IPv6 literal (without brackets); exactly the strings the
/// grammar [`ipv6_of`] admits are accepted, with that value.
pub fn parse_ipv6(s: &[u8]) -> (r: Option<u128>)
    ensures
        r == ipv6_of(s@),
{
    let dc = find_dc(s);
    if dc == s.len() {
        match parse_groups(s, 0, true) {
            Some(g) => {
                if g.len() == 8 {
                    Some(combine_groups(&g))
                } else {
                    None
                }
            },
            None => None,
        }
    } else {
        let head = &s[0..dc];
        let hg = if head.len() == 0 {
            Some(Vec::<u16>::new())
        } else {
            parse_groups(head, 0, false)
        };
        let tail = &s[dc + 2..s.len()];
        let tg = if tail.len() == 0 {
            Some(Vec::<u16>::new())
        } else {
            parse_groups(tail, 0, true)
        };
        match (hg, tg) {
            (Some(h), Some(t)) => {
                if h.len() <= 7 && t.len() <= 7 - h.len() {
                    let ghost hseq = h@;
                    let ghost tseq = t@;
                    let zeros_needed = 8 - h.len() - t.len();
                    let mut all = h;
                    let mut k: usize = 0;
                    while k < zeros_needed
                        invariant
                            k <= zeros_needed,
                            all@ == hseq + zero_groups(k as nat),
                        decreases zeros_needed - k,
                    {
                        all.push(0);
                        proof {
                            assert(hseq + zero_groups((k + 1) as nat) =~= (hseq + zero_groups(
                                k as nat,
                            )).push(0u16));
                        }
                        k = k + 1;
                    }
                    let mut t = t;
                    all.append(&mut t);
                    proof {
                        assert(all@ =~= hseq + zero_groups(zeros_needed as nat) + tseq);
                    }
                    Some(combine_groups(&all))
                } else {
                    None
                }
            },
            _ => None,
        }
    }
}

/// Parse a host as a literal IP address: a dotted quad, else an IPv6
/// literal, with or without brackets.
pub fn parse_ip_literal(s: &[u8]) -> (r: Option<HostIp>)
    ensures
        r == literal_ip_of(s@),
{
    match parse_ipv4(s) {
        Some(v) => Some(HostIp::V4(v)),
        None => {
            let t = strip_bracket_slice(s);
            match parse_ipv6(t) {
                Some(v) => Some(HostIp::V6(v)),
                None => None,
            }
        },
    }
}

} // verus!

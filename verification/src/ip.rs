//! Network addresses as plain values, and their textual grammar.
//!
//! An address is held as its numeric value (32 bits for version 4, 128 bits
//! for version 6). The textual forms accepted are the usual ones: a dotted
//! quad of decimal octets without leading zeros, and colon-separated groups of
//! one to four hex digits with at most one `::` gap and an optional embedded
//! dotted quad in the last two group positions.

use vstd::prelude::*;

use crate::text::{spec_split, split_bytes};

verus! {

/// The address family of a query or a record.
#[derive(Clone, Copy, Debug, PartialEq, Eq, Hash, Structural)]
pub enum IpVersion {
    V4,
    V6,
}

/// A public network address of either family.
#[derive(Clone, Copy, Debug, PartialEq, Eq, Hash, Structural)]
pub enum IpAddress {
    V4(u32),
    V6(u128),
}

impl IpAddress {
    /// The family this address belongs to.
    pub open spec fn spec_family(self) -> IpVersion {
        match self {
            IpAddress::V4(_) => IpVersion::V4,
            IpAddress::V6(_) => IpVersion::V6,
        }
    }

    /// The family this address belongs to.
    pub fn family(&self) -> (v: IpVersion)
        ensures
            v == self.spec_family(),
    {
        match self {
            IpAddress::V4(_) => IpVersion::V4,
            IpAddress::V6(_) => IpVersion::V6,
        }
    }
}

pub open spec fn is_dec_digit(b: u8) -> bool {
    48 <= b && b <= 57
}

pub open spec fn dec_digit_val(b: u8) -> int {
    b - 48
}

/// Value of a decimal digit string (most significant digit first).
pub open spec fn dec_value(s: Seq<u8>) -> int
    decreases s.len(),
{
    if s.len() == 0 {
        0
    } else {
        dec_value(s.drop_last()) * 10 + dec_digit_val(s.last())
    }
}

/// A valid dotted-quad octet: one to three decimal digits, no leading zero,
/// value at most 255.
pub open spec fn valid_octet(s: Seq<u8>) -> bool {
    &&& 1 <= s.len() <= 3
    &&& (forall|i: int| 0 <= i < s.len() ==> is_dec_digit(s[i]))
    &&& (s.len() > 1 ==> s[0] != 48)
    &&& dec_value(s) <= 255
}

pub open spec fn is_hex_digit(b: u8) -> bool {
    is_dec_digit(b) || (97 <= b && b <= 102) || (65 <= b && b <= 70)
}

pub open spec fn hex_digit_val(b: u8) -> int {
    if is_dec_digit(b) {
        b - 48
    } else if 97 <= b && b <= 102 {
        b - 97 + 10
    } else {
        b - 65 + 10
    }
}

/// Value of a hex digit string (most significant digit first).
pub open spec fn hex_value(s: Seq<u8>) -> int
    decreases s.len(),
{
    if s.len() == 0 {
        0
    } else {
        hex_value(s.drop_last()) * 16 + hex_digit_val(s.last())
    }
}

/// A valid group of an address of the 6th version: one to four hex digits.
pub open spec fn valid_hex_group(s: Seq<u8>) -> bool {
    1 <= s.len() <= 4 && (forall|i: int| 0 <= i < s.len() ==> is_hex_digit(s[i]))
}

pub open spec fn pow16(n: nat) -> int
    decreases n,
{
    if n == 0 {
        1
    } else {
        16 * pow16((n - 1) as nat)
    }
}

pub open spec fn pow10(n: nat) -> int
    decreases n,
{
    if n == 0 {
        1
    } else {
        10 * pow10((n - 1) as nat)
    }
}

proof fn lemma_hex_value_bound(s: Seq<u8>)
    requires
        forall|i: int| 0 <= i < s.len() ==> is_hex_digit(s[i]),
    ensures
        0 <= hex_value(s) < pow16(s.len()),
    decreases s.len(),
{
    if s.len() > 0 {
        lemma_hex_value_bound(s.drop_last());
    }
}

/// The numeric value of the dotted quad `a.b.c.d`.
pub open spec fn combine4(a: int, b: int, c: int, d: int) -> u32 {
    (a * 0x1000000 + b * 0x10000 + c * 0x100 + d) as u32
}

/// A dotted quad of decimal octets, or nothing.
pub open spec fn spec_parse_ipv4(s: Seq<u8>) -> Option<u32> {
    let parts = spec_split(s, 46);
    if parts.len() == 4 && valid_octet(parts[0]) && valid_octet(parts[1]) && valid_octet(parts[2])
        && valid_octet(parts[3]) {
        Some(combine4(dec_value(parts[0]), dec_value(parts[1]), dec_value(parts[2]), dec_value(parts[3])))
    } else {
        None
    }
}

/// Parse one octet of a dotted quad.
fn parse_octet(t: &[u8]) -> (r: Option<u8>)
    ensures
        r is Some <==> valid_octet(t@),
        r is Some ==> r->0 == dec_value(t@),
{
    if t.len() < 1 || t.len() > 3 {
        return None;
    }
    if t.len() > 1 && t[0] == 48 {
        return None;
    }
    let mut acc: u32 = 0;
    let mut i: usize = 0;
    while i < t.len()
        invariant
            0 <= i <= t@.len() <= 3,
            acc == dec_value(t@.take(i as int)),
            acc < pow10(i as nat),
            pow10(i as nat) <= 1000,
            forall|j: int| 0 <= j < i ==> is_dec_digit(t@[j]),
        decreases t@.len() - i,
    {
        let b: u8 = t[i];
        if !(48 <= b && b <= 57) {
            return None;
        }
        proof {
            assert(t@.take(i + 1).drop_last() =~= t@.take(i as int));
            assert(t@.take(i + 1).last() == t@[i as int]);
            assert(pow10(0) == 1);
            assert(pow10(1) == 10);
            assert(pow10(2) == 100);
            assert(pow10(3) == 1000);
        }
        acc = acc * 10 + (b - 48) as u32;
        i = i + 1;
    }
    proof {
        assert(t@.take(i as int) =~= t@);
    }
    if acc > 255 {
        return None;
    }
    Some(acc as u8)
}

/// Parse a dotted quad of decimal octets.
pub fn parse_ipv4(s: &[u8]) -> (r: Option<u32>)
    ensures
        r == spec_parse_ipv4(s@),
{
    let parts: Vec<Vec<u8>> = split_bytes(s, 46);
    if parts.len() != 4 {
        return None;
    }
    let a: Option<u8> = parse_octet(parts[0].as_slice());
    let b: Option<u8> = parse_octet(parts[1].as_slice());
    let c: Option<u8> = parse_octet(parts[2].as_slice());
    let d: Option<u8> = parse_octet(parts[3].as_slice());
    match (a, b, c, d) {
        (Some(a), Some(b), Some(c), Some(d)) => {
            let v: u32 = (a as u32) * 0x1000000 + (b as u32) * 0x10000 + (c as u32) * 0x100 + (d as u32);
            Some(v)
        },
        _ => None,
    }
}

/// The numeric value of eight 16-bit groups, most significant first.
pub open spec fn combine8(g: Seq<u16>) -> u128
    recommends
        g.len() == 8,
{
    ((g[0] as int) * 0x10000000000000000000000000000 + (g[1] as int) * 0x1000000000000000000000000
        + (g[2] as int) * 0x100000000000000000000 + (g[3] as int) * 0x10000000000000000 + (
    g[4] as int) * 0x1000000000000 + (g[5] as int) * 0x100000000 + (g[6] as int) * 0x10000 + (
    g[7] as int)) as u128
}

/// First position of a `::` gap, if any.
pub open spec fn find_double_colon(s: Seq<u8>) -> Option<int>
    decreases s.len(),
{
    if s.len() < 2 {
        None
    } else if s[0] == 58 && s[1] == 58 {
        Some(0)
    } else {
        match find_double_colon(s.skip(1)) {
            Some(i) => Some(i + 1),
            None => None,
        }
    }
}

proof fn lemma_find_double_colon_at(s: Seq<u8>, i: int)
    requires
        0 <= i,
        i + 1 < s.len(),
        s[i] == 58 && s[i + 1] == 58,
        forall|j: int| 0 <= j < i ==> !(#[trigger] s[j] == 58 && s[j + 1] == 58),
    ensures
        find_double_colon(s) == Some(i),
    decreases i,
{
    if i > 0 {
        lemma_find_double_colon_at(s.skip(1), i - 1);
    }
}

proof fn lemma_find_double_colon_none(s: Seq<u8>)
    requires
        forall|j: int| 0 <= j && j + 1 < s.len() ==> !(#[trigger] s[j] == 58 && s[j + 1] == 58),
    ensures
        find_double_colon(s) is None,
    decreases s.len(),
{
    if s.len() >= 2 {
        lemma_find_double_colon_none(s.skip(1));
    }
}

/// Values of a token list in which every token must be a hex group.
pub open spec fn hex_groups(toks: Seq<Seq<u8>>) -> Option<Seq<u16>>
    decreases toks.len(),
{
    if toks.len() == 0 {
        Some(Seq::empty())
    } else {
        match hex_groups(toks.drop_last()) {
            Some(gs) => if valid_hex_group(toks.last()) {
                Some(gs.push(hex_value(toks.last()) as u16))
            } else {
                None
            },
            None => None,
        }
    }
}

/// Once a prefix of the token list has no group values, no extension of it
/// has any.
proof fn lemma_hex_groups_none_propagates(toks: Seq<Seq<u8>>, k: int, n: int)
    requires
        0 <= k <= n <= toks.len(),
        hex_groups(toks.take(k)) is None,
    ensures
        hex_groups(toks.take(n)) is None,
    decreases n - k,
{
    if k < n {
        assert(toks.take(k + 1).drop_last() =~= toks.take(k));
        lemma_hex_groups_none_propagates(toks, k + 1, n);
    }
}

/// Values of a token list whose last token may instead be an embedded dotted
/// quad, contributing the two final groups.
pub open spec fn hex_groups_with_tail(toks: Seq<Seq<u8>>) -> Option<Seq<u16>>
    recommends
        toks.len() >= 1,
{
    if valid_hex_group(toks.last()) {
        hex_groups(toks)
    } else {
        match spec_parse_ipv4(toks.last()) {
            Some(v) => match hex_groups(toks.drop_last()) {
                Some(gs) => Some(gs.push((v >> 16) as u16).push((v & 0xFFFF) as u16)),
                None => None,
            },
            None => None,
        }
    }
}

/// A colon-grouped address of the 6th version, or nothing.
pub open spec fn spec_parse_ipv6(s: Seq<u8>) -> Option<u128> {
    match find_double_colon(s) {
        None => {
            match hex_groups_with_tail(spec_split(s, 58)) {
                Some(gs) => if gs.len() == 8 {
                    Some(combine8(gs))
                } else {
                    None
                },
                None => None,
            }
        },
        Some(i) => {
            let left = s.take(i);
            let right = s.skip(i + 2);
            let lg = if left.len() == 0 {
                Some(Seq::<u16>::empty())
            } else {
                hex_groups(spec_split(left, 58))
            };
            let rg = if right.len() == 0 {
                Some(Seq::<u16>::empty())
            } else {
                hex_groups_with_tail(spec_split(right, 58))
            };
            match (lg, rg) {
                (Some(l), Some(r)) => if l.len() + r.len() <= 7 {
                    Some(combine8(l + Seq::new((8 - l.len() - r.len()) as nat, |k: int| 0u16) + r))
                } else {
                    None
                },
                _ => None,
            }
        },
    }
}

/// Parse one colon-separated hex group.
fn parse_hex_group(t: &[u8]) -> (r: Option<u16>)
    ensures
        r is Some <==> valid_hex_group(t@),
        r is Some ==> r->0 == hex_value(t@),
{
    if t.len() < 1 || t.len() > 4 {
        return None;
    }
    let mut acc: u32 = 0;
    let mut i: usize = 0;
    while i < t.len()
        invariant
            0 <= i <= t@.len() <= 4,
            acc == hex_value(t@.take(i as int)),
            acc < pow16(i as nat),
            pow16(i as nat) <= 0x10000,
            forall|j: int| 0 <= j < i ==> is_hex_digit(t@[j]),
        decreases t@.len() - i,
    {
        let b: u8 = t[i];
        let d: u32 = if 48 <= b && b <= 57 {
            (b - 48) as u32
        } else if 97 <= b && b <= 102 {
            (b - 97) as u32 + 10
        } else if 65 <= b && b <= 70 {
            (b - 65) as u32 + 10
        } else {
            return None;
        };
        proof {
            assert(t@.take(i + 1).drop_last() =~= t@.take(i as int));
            assert(t@.take(i + 1).last() == t@[i as int]);
            assert(pow16(0) == 1);
            assert(pow16(1) == 16);
            assert(pow16(2) == 256);
            assert(pow16(3) == 4096);
            assert(pow16(4) == 0x10000);
        }
        acc = acc * 16 + d;
        i = i + 1;
    }
    proof {
        assert(t@.take(i as int) =~= t@);
        lemma_hex_value_bound(t@);
    }
    Some(acc as u16)
}

/// Parse the first `n` tokens as hex groups.
fn parse_hex_groups(toks: &Vec<Vec<u8>>, n: usize) -> (r: Option<Vec<u16>>)
    requires
        n <= toks@.len(),
    ensures
        match r {
            Some(gs) => hex_groups(toks@.map_values(|t: Vec<u8>| t@).take(n as int)) == Some(gs@),
            None => hex_groups(toks@.map_values(|t: Vec<u8>| t@).take(n as int)) is None,
        },
{
    let ghost full = toks@.map_values(|t: Vec<u8>| t@);
    let mut out: Vec<u16> = Vec::new();
    let mut i: usize = 0;
    while i < n
        invariant
            0 <= i <= n <= toks@.len(),
            full == toks@.map_values(|t: Vec<u8>| t@),
            hex_groups(full.take(i as int)) == Some(out@),
        decreases n - i,
    {
        proof {
            assert(full.take(i + 1).drop_last() =~= full.take(i as int));
            assert(full.take(i + 1).last() == full[i as int]);
            assert(full[i as int] == toks@[i as int]@);
        }
        match parse_hex_group(toks[i].as_slice()) {
            Some(g) => {
                out.push(g);
            },
            None => {
                proof {
                    lemma_hex_groups_none_propagates(full, i + 1, n as int);
                }
                return None;
            },
        }
        i = i + 1;
    }
    Some(out)
}

/// Parse a whole token list, allowing an embedded dotted quad as the final
/// token.
fn parse_hex_groups_with_tail(toks: &Vec<Vec<u8>>) -> (r: Option<Vec<u16>>)
    requires
        toks@.len() >= 1,
    ensures
        match r {
            Some(gs) => hex_groups_with_tail(toks@.map_values(|t: Vec<u8>| t@)) == Some(gs@),
            None => hex_groups_with_tail(toks@.map_values(|t: Vec<u8>| t@)) is None,
        },
{
    let ghost full = toks@.map_values(|t: Vec<u8>| t@);
    let n: usize = toks.len();
    let last: &[u8] = toks[n - 1].as_slice();
    proof {
        assert(full.last() == last@);
        assert(full.drop_last() =~= full.take(n - 1 as int));
        assert(full.take(n as int) =~= full);
    }
    match parse_hex_group(last) {
        Some(_) => parse_hex_groups(toks, n),
        None => {
            match parse_ipv4(last) {
                Some(v) => {
                    match parse_hex_groups(toks, n - 1) {
                        Some(mut gs) => {
                            gs.push((v >> 16u32) as u16);
                            gs.push((v & 0xFFFF) as u16);
                            Some(gs)
                        },
                        None => None,
                    }
                },
                None => None,
            }
        },
    }
}

/// The numeric value of eight groups.
fn combine_groups(g: &Vec<u16>) -> (r: u128)
    requires
        g@.len() == 8,
    ensures
        r == combine8(g@),
{
    (g[0] as u128) * 0x10000000000000000000000000000 + (g[1] as u128)
        * 0x1000000000000000000000000 + (g[2] as u128) * 0x100000000000000000000 + (g[3] as u128)
        * 0x10000000000000000 + (g[4] as u128) * 0x1000000000000 + (g[5] as u128) * 0x100000000 + (
    g[6] as u128) * 0x10000 + (g[7] as u128)
}

/// Parse a colon-grouped address of the 6th version.
pub fn parse_ipv6(s: &[u8]) -> (r: Option<u128>)
    ensures
        r == spec_parse_ipv6(s@),
{
    // Locate the first `::` gap, if any.
    let mut dc: Option<usize> = None;
    if s.len() >= 2 {
        let mut i: usize = 0;
        while i < s.len() - 1
            invariant_except_break
                0 <= i <= s@.len() - 1,
                s@.len() >= 2,
                dc is None,
                forall|j: int| 0 <= j < i ==> !(#[trigger] s@[j] == 58 && s@[j + 1] == 58),
            ensures
                match dc {
                    Some(k) => 0 <= k && k + 1 < s@.len() && s@[k as int] == 58 && s@[k + 1] == 58
                        && (forall|j: int|
                        0 <= j < k ==> !(#[trigger] s@[j] == 58 && s@[j + 1] == 58)),
                    None => forall|j: int|
                        0 <= j && j + 1 < s@.len() ==> !(#[trigger] s@[j] == 58 && s@[j + 1] == 58),
                },
            decreases s@.len() - i,
        {
            if s[i] == 58 && s[i + 1] == 58 {
                dc = Some(i);
                break;
            }
            i = i + 1;
        }
    }
    proof {
        match dc {
            Some(k) => lemma_find_double_colon_at(s@, k as int),
            None => lemma_find_double_colon_none(s@),
        }
    }
    match dc {
        None => {
            let toks: Vec<Vec<u8>> = split_bytes(s, 58);
            proof {
                crate::text::lemma_split_nonempty(s@, 58);
            }
            match parse_hex_groups_with_tail(&toks) {
                Some(gs) => {
                    if gs.len() == 8 {
                        Some(combine_groups(&gs))
                    } else {
                        None
                    }
                },
                None => None,
            }
        },
        Some(k) => {
            let left: Vec<u8> = crate::text::bytes_range(s, 0, k);
            let right: Vec<u8> = crate::text::bytes_range(s, k + 2, s.len());
            proof {
                assert(left@ =~= s@.take(k as int));
                assert(right@ =~= s@.skip(k + 2));
            }
            let lg: Option<Vec<u16>> = if left.len() == 0 {
                Some(Vec::new())
            } else {
                let ltoks: Vec<Vec<u8>> = split_bytes(left.as_slice(), 58);
                let n: usize = ltoks.len();
                proof {
                    assert(ltoks@.map_values(|t: Vec<u8>| t@).take(n as int) =~= ltoks@.map_values(
                        |t: Vec<u8>| t@,
                    ));
                }
                parse_hex_groups(&ltoks, n)
            };
            let rg: Option<Vec<u16>> = if right.len() == 0 {
                Some(Vec::new())
            } else {
                let rtoks: Vec<Vec<u8>> = split_bytes(right.as_slice(), 58);
                proof {
                    crate::text::lemma_split_nonempty(right@, 58);
                }
                parse_hex_groups_with_tail(&rtoks)
            };
            match (lg, rg) {
                (Some(l), Some(r)) => {
                    if l.len() <= 7 && r.len() <= 7 - l.len() {
                        let mut g: Vec<u16> = Vec::new();
                        let mut idx: usize = 0;
                        while idx < l.len()
                            invariant
                                0 <= idx <= l@.len(),
                                g@ =~= l@.take(idx as int),
                            decreases l@.len() - idx,
                        {
                            g.push(l[idx]);
                            idx = idx + 1;
                        }
                        let zeros: usize = 8 - l.len() - r.len();
                        let mut z: usize = 0;
                        while z < zeros
                            invariant
                                0 <= z <= zeros,
                                g@ =~= l@ + Seq::new(z as nat, |kk: int| 0u16),
                                zeros == 8 - l@.len() - r@.len(),
                            decreases zeros - z,
                        {
                            g.push(0u16);
                            z = z + 1;
                        }
                        let mut ridx: usize = 0;
                        while ridx < r.len()
                            invariant
                                0 <= ridx <= r@.len(),
                                g@ =~= l@ + Seq::new((8 - l@.len() - r@.len()) as nat, |kk: int| 0u16)
                                    + r@.take(ridx as int),
                            decreases r@.len() - ridx,
                        {
                            g.push(r[ridx]);
                            ridx = ridx + 1;
                        }
                        proof {
                            assert(g@ =~= l@ + Seq::new((8 - l@.len() - r@.len()) as nat, |kk: int| 0u16)
                                + r@);
                        }
                        Some(combine_groups(&g))
                    } else {
                        None
                    }
                },
                _ => None,
            }
        },
    }
}

/// Either textual address form, version 4 tried first.
pub open spec fn spec_parse_ip(s: Seq<u8>) -> Option<IpAddress> {
    match spec_parse_ipv4(s) {
        Some(v) => Some(IpAddress::V4(v)),
        None => match spec_parse_ipv6(s) {
            Some(v) => Some(IpAddress::V6(v)),
            None => None,
        },
    }
}

/// Parse a textual address of either family.
pub fn parse_ip(s: &[u8]) -> (r: Option<IpAddress>)
    ensures
        r == spec_parse_ip(s@),
{
    match parse_ipv4(s) {
        Some(v) => Some(IpAddress::V4(v)),
        None => {
            match parse_ipv6(s) {
                Some(v) => Some(IpAddress::V6(v)),
                None => None,
            }
        },
    }
}

} // verus!

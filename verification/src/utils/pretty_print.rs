//! Textual forms of IPv4, IPv6 and link-layer addresses.

use crate::text::{decimal_text, hex_text, push_decimal, push_hex};
use vstd::prelude::*;

verus! {

/// Dotted decimal: the four bytes as decimal numerals separated by dots.
pub open spec fn ipv4_text(bytes: Seq<u8>) -> Seq<char>
    recommends
        bytes.len() == 4,
{
    decimal_text(bytes[0] as nat) + seq!['.'] + decimal_text(bytes[1] as nat) + seq!['.']
        + decimal_text(bytes[2] as nat) + seq!['.'] + decimal_text(bytes[3] as nat)
}

/// Six bytes as two-digit hexadecimal numerals separated by colons.
pub open spec fn mac_text(bytes: Seq<u8>) -> Seq<char>
    recommends
        bytes.len() == 6,
{
    hex_text(bytes[0] as nat, 2) + seq![':'] + hex_text(bytes[1] as nat, 2) + seq![':'] + hex_text(
        bytes[2] as nat,
        2,
    ) + seq![':'] + hex_text(bytes[3] as nat, 2) + seq![':'] + hex_text(bytes[4] as nat, 2)
        + seq![':'] + hex_text(bytes[5] as nat, 2)
}

/// The eight 16-bit groups of an IPv6 address, each read big-endian.
pub open spec fn groups_of(bytes: Seq<u8>) -> Seq<u16>
    recommends
        bytes.len() == 16,
{
    Seq::new(8, |i: int| (bytes[2 * i] as int * 256 + bytes[2 * i + 1] as int) as u16)
}

/// Whether the groups `start .. start + len` exist and are all zero.
pub open spec fn zero_run(groups: Seq<u16>, start: int, len: int) -> bool {
    &&& 0 <= start
    &&& 0 <= len
    &&& start + len <= groups.len()
    &&& forall|k: int| start <= k < start + len ==> groups[k] == 0
}

/// Whether `(start, len)` is the longest run of zero groups and, among runs of
/// that length, the leftmost. Where no group is zero it is `(0, 0)`.
pub open spec fn is_longest_zero_run(groups: Seq<u16>, start: int, len: int) -> bool {
    &&& zero_run(groups, start, len)
    &&& forall|s: int, l: int| #[trigger] zero_run(groups, s, l) ==> l <= len
    &&& forall|s: int| #[trigger] zero_run(groups, s, len) && len > 0 ==> start <= s
    &&& len == 0 ==> start == 0
}

/// The longest, leftmost run of zero groups.
pub open spec fn longest_zero_run(groups: Seq<u16>) -> (int, int) {
    choose|r: (int, int)| is_longest_zero_run(groups, r.0, r.1)
}

/// The groups `from .. to` as unpadded hexadecimal numerals joined by colons.
pub open spec fn joined_groups(groups: Seq<u16>, from: int, to: int) -> Seq<char>
    decreases to - from,
{
    if from >= to {
        Seq::empty()
    } else if from + 1 == to {
        hex_text(groups[from] as nat, 1)
    } else {
        joined_groups(groups, from, to - 1) + seq![':'] + hex_text(groups[to - 1] as nat, 1)
    }
}

/// The bracketed text of an IPv6 address. The longest run of zero groups, if
/// it spans at least two groups, is left out: a run at the start is written
/// `::`, a run in the middle leaves `::` between its neighbours, and a run
/// that reaches the last group leaves a single `:` before the bracket.
pub open spec fn ipv6_text(bytes: Seq<u8>) -> Seq<char>
    recommends
        bytes.len() == 16,
{
    let groups = groups_of(bytes);
    let (start, len) = longest_zero_run(groups);
    if len < 2 {
        seq!['['] + joined_groups(groups, 0, 8) + seq![']']
    } else if start == 0 {
        seq!['[', ':', ':'] + joined_groups(groups, len, 8) + seq![']']
    } else if start + len == 8 {
        seq!['['] + joined_groups(groups, 0, start) + seq![':', ']']
    } else {
        seq!['['] + joined_groups(groups, 0, start) + seq![':', ':'] + joined_groups(
            groups,
            start + len,
            8,
        ) + seq![']']
    }
}

/// Two pairs that both are the longest leftmost zero run are the same pair.
pub proof fn lemma_longest_zero_run_unique(groups: Seq<u16>, start: int, len: int)
    requires
        is_longest_zero_run(groups, start, len),
    ensures
        longest_zero_run(groups) == (start, len),
{
    let r = longest_zero_run(groups);
    assert(is_longest_zero_run(groups, (start, len).0, (start, len).1));
    assert(is_longest_zero_run(groups, r.0, r.1));
    assert(zero_run(groups, r.0, r.1));
    assert(zero_run(groups, start, len));
}

pub fn pretty_print_ipv4(bytes: &[u8; 4]) -> (text: String)
    ensures
        text@ == ipv4_text(bytes@),
{
    let mut out = String::new();
    push_decimal(&mut out, bytes[0] as u64);
    out.push('.');
    push_decimal(&mut out, bytes[1] as u64);
    out.push('.');
    push_decimal(&mut out, bytes[2] as u64);
    out.push('.');
    push_decimal(&mut out, bytes[3] as u64);
    out
}

pub fn pretty_print_mac(bytes: &[u8; 6]) -> (text: String)
    ensures
        text@ == mac_text(bytes@),
{
    let mut out = String::new();
    push_hex(&mut out, bytes[0] as u128, 2);
    out.push(':');
    push_hex(&mut out, bytes[1] as u128, 2);
    out.push(':');
    push_hex(&mut out, bytes[2] as u128, 2);
    out.push(':');
    push_hex(&mut out, bytes[3] as u128, 2);
    out.push(':');
    push_hex(&mut out, bytes[4] as u128, 2);
    out.push(':');
    push_hex(&mut out, bytes[5] as u128, 2);
    out
}

/// Reads the eight groups of an address.
pub(crate) fn read_groups(bytes: &[u8; 16]) -> (groups: Vec<u16>)
    ensures
        groups@ == groups_of(bytes@),
{
    let mut groups: Vec<u16> = Vec::new();
    let mut i: usize = 0;
    while i < 8
        invariant
            i <= 8,
            groups@.len() == i,
            forall|k: int| 0 <= k < i ==> groups@[k] == groups_of(bytes@)[k],
        decreases 8 - i,
    {
        let hi: u16 = bytes[2 * i] as u16;
        let lo: u16 = bytes[2 * i + 1] as u16;
        groups.push(hi * 256 + lo);
        i += 1;
    }
    assert(groups@ =~= groups_of(bytes@));
    groups
}

/// Finds the longest run of zero groups, the leftmost among equals.
pub(crate) fn find_longest_zero_run(groups: &Vec<u16>) -> (run: (usize, usize))
    ensures
        is_longest_zero_run(groups@, run.0 as int, run.1 as int),
{
    let n: usize = groups.len();
    let mut best_start: usize = 0;
    let mut best_len: usize = 0;
    let mut current_start: usize = 0;
    let mut current_len: usize = 0;
    let mut i: usize = 0;
    while i < n
        invariant
            i <= n,
            n == groups@.len(),
            current_len <= i,
            current_len > 0 ==> current_start == i - current_len,
            zero_run(groups@, i - current_len, current_len as int),
            i - current_len > 0 ==> groups@[i - current_len - 1] != 0,
            best_len > 0 ==> zero_run(groups@, best_start as int, best_len as int),
            best_len > 0 ==> best_start + best_len <= i - current_len,
            best_len == 0 ==> best_start == 0,
            forall|s: int, l: int| #[trigger]
                zero_run(groups@, s, l) && s + l <= i - current_len ==> l <= best_len,
            forall|s: int| #[trigger]
                zero_run(groups@, s, best_len as int) && best_len > 0 && s + best_len <= i
                    - current_len ==> best_start <= s,
        decreases n - i,
    {
        let ghost p = i - current_len;
        if groups[i] == 0 {
            if current_len == 0 {
                current_start = i;
            }
            current_len += 1;
        } else {
            proof {
                assert forall|s: int, l: int| #[trigger]
                    zero_run(groups@, s, l) && s + l <= i + 1 implies l <= (if current_len
                    > best_len {
                    current_len
                } else {
                    best_len
                }) by {
                    lemma_run_splits(groups@, s, l, p, i as int);
                }
            }
            if current_len > best_len {
                proof {
                    assert forall|s: int| #[trigger]
                        zero_run(groups@, s, current_len as int) && s + current_len <= i
                            + 1 implies p <= s by {
                        lemma_run_splits(groups@, s, current_len as int, p, i as int);
                    }
                }
                best_start = current_start;
                best_len = current_len;
            } else {
                proof {
                    assert forall|s: int| #[trigger]
                        zero_run(groups@, s, best_len as int) && best_len > 0 && s + best_len
                            <= i + 1 implies best_start <= s by {
                        lemma_run_splits(groups@, s, best_len as int, p, i as int);
                    }
                }
            }
            current_len = 0;
        }
        i += 1;
    }
    let ghost p = n - current_len;
    proof {
        assert forall|s: int, l: int| #[trigger] zero_run(groups@, s, l) implies l <= (if current_len
            > best_len {
            current_len
        } else {
            best_len
        }) by {
            lemma_run_tail(groups@, s, l, p);
        }
    }
    if current_len > best_len {
        proof {
            assert forall|s: int| #[trigger] zero_run(groups@, s, current_len as int) implies p
                <= s by {
                lemma_run_tail(groups@, s, current_len as int, p);
            }
        }
        best_start = current_start;
        best_len = current_len;
    } else {
        proof {
            assert forall|s: int| #[trigger]
                zero_run(groups@, s, best_len as int) && best_len > 0 implies best_start <= s by {
                lemma_run_tail(groups@, s, best_len as int, p);
            }
        }
    }
    (best_start, best_len)
}

/// A zero run that ends at or before `i + 1`, where group `i` is not zero and
/// `p .. i` is a maximal zero run, lies before `p` or inside `p .. i`.
proof fn lemma_run_splits(groups: Seq<u16>, s: int, l: int, p: int, i: int)
    requires
        zero_run(groups, s, l),
        s + l <= i + 1,
        0 <= p <= i < groups.len(),
        groups[i] != 0,
        p > 0 ==> groups[p - 1] != 0,
    ensures
        s + l <= p || (p <= s && l <= i - p),
{
    if l > 0 {
        if s + l == i + 1 {
            assert(groups[i] == 0);
        }
        if p > 0 && s <= p - 1 && p - 1 < s + l {
            assert(groups[p - 1] == 0);
        }
    }
}

/// A zero run, where `p ..` to the end is a maximal zero run, lies before `p`
/// or inside it.
proof fn lemma_run_tail(groups: Seq<u16>, s: int, l: int, p: int)
    requires
        zero_run(groups, s, l),
        0 <= p <= groups.len(),
        p > 0 ==> groups[p - 1] != 0,
    ensures
        s + l <= p || (p <= s && l <= groups.len() - p),
{
    if l > 0 && p > 0 && s <= p - 1 && p - 1 < s + l {
        assert(groups[p - 1] == 0);
    }
}

/// Appends the groups `from .. to`, joined by colons.
pub(crate) fn push_joined_groups(out: &mut String, groups: &Vec<u16>, from: usize, to: usize)
    requires
        from <= to <= groups@.len(),
    ensures
        final(out)@ == old(out)@ + joined_groups(groups@, from as int, to as int),
{
    let mut i: usize = from;
    while i < to
        invariant
            from <= i <= to <= groups@.len(),
            out@ == old(out)@ + joined_groups(groups@, from as int, i as int),
        decreases to - i,
    {
        if i > from {
            out.push(':');
        }
        push_hex(out, groups[i] as u128, 1);
        i += 1;
        assert(out@ == old(out)@ + joined_groups(groups@, from as int, i as int));
    }
}

pub fn pretty_print_ipv6(bytes: &[u8; 16]) -> (text: String)
    ensures
        text@ == ipv6_text(bytes@),
{
    let groups = read_groups(bytes);
    let (start, len) = find_longest_zero_run(&groups);
    proof {
        lemma_longest_zero_run_unique(groups@, start as int, len as int);
    }
    let mut out = String::new();
    out.push('[');
    if len < 2 {
        push_joined_groups(&mut out, &groups, 0, 8);
    } else if start == 0 {
        out.push(':');
        out.push(':');
        push_joined_groups(&mut out, &groups, len, 8);
    } else if start + len == 8 {
        push_joined_groups(&mut out, &groups, 0, start);
        out.push(':');
    } else {
        push_joined_groups(&mut out, &groups, 0, start);
        out.push(':');
        out.push(':');
        push_joined_groups(&mut out, &groups, start + len, 8);
    }
    out.push(']');
    out
}

} // verus!

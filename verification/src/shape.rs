use vstd::prelude::*;

use crate::hex::{is_hex_digit, is_hex_digit_char};
use crate::text::{colon_split, group_views, split_colon_vec};

verus! {

/// What must hold at position `i` of a MAC address: a colon at every
/// third position, a hex digit everywhere else.
pub open spec fn mac_pos_ok(s: Seq<char>, i: int) -> bool {
    if i % 3 == 2 {
        s[i] == ':'
    } else {
        is_hex_digit(s[i])
    }
}

/// A textual MAC address: six groups of exactly two hex digits joined by
/// colons, 17 characters in all.
pub open spec fn mac_shaped(s: Seq<char>) -> bool {
    s.len() == 17 && forall|i: int| 0 <= i < 17 ==> mac_pos_ok(s, i)
}

/// What must hold at position `i` of an EUI-64 suffix: a colon at every
/// fifth position (including the leading one), a hex digit everywhere
/// else.
pub open spec fn suffix_pos_ok(s: Seq<char>, i: int) -> bool {
    if i % 5 == 0 {
        s[i] == ':'
    } else {
        is_hex_digit(s[i])
    }
}

/// A textual EUI-64 suffix: a leading colon, then four groups of exactly
/// four hex digits joined by colons, 20 characters in all.
pub open spec fn suffix_shaped(s: Seq<char>) -> bool {
    s.len() == 20 && forall|i: int| 0 <= i < 20 ==> suffix_pos_ok(s, i)
}

/// One group of the general IPv6 shape: up to four hex digits, possibly
/// none.
pub open spec fn ipv6_group_ok(g: Seq<char>) -> bool {
    g.len() <= 4 && forall|j: int| 0 <= j < g.len() ==> is_hex_digit(g[j])
}

/// The general IPv6 shape: two to eight groups of up to four hex digits
/// separated by colons. Empty groups are allowed, which is how a `::`
/// zero-compression run appears after splitting.
pub open spec fn ipv6_shaped(s: Seq<char>) -> bool {
    let gs = colon_split(s);
    2 <= gs.len() <= 8 && forall|i: int| 0 <= i < gs.len() ==> ipv6_group_ok(gs[i])
}

/// No token is ambiguous between the MAC and the EUI-64 suffix shape:
/// the two patterns are disjoint (a MAC is 17 characters and starts with
/// a hex digit; a suffix is 20 characters and starts with a colon).
pub proof fn lemma_mac_suffix_disjoint(s: Seq<char>)
    ensures
        !(mac_shaped(s) && suffix_shaped(s)),
{
}

/// Whether the characters form a MAC address.
pub fn is_mac_shaped(v: &Vec<char>) -> (r: bool)
    ensures
        r == mac_shaped(v@),
{
    if v.len() != 17 {
        return false;
    }
    let mut i: usize = 0;
    while i < 17
        invariant
            v@.len() == 17,
            i <= 17,
            forall|k: int| 0 <= k < i ==> mac_pos_ok(v@, k),
        decreases 17 - i,
    {
        let ok = if i % 3 == 2 {
            v[i] == ':'
        } else {
            is_hex_digit_char(v[i])
        };
        if !ok {
            proof {
                assert(!mac_pos_ok(v@, i as int));
            }
            return false;
        }
        i = i + 1;
    }
    true
}

/// Whether the characters form an EUI-64 suffix.
pub fn is_suffix_shaped(v: &Vec<char>) -> (r: bool)
    ensures
        r == suffix_shaped(v@),
{
    if v.len() != 20 {
        return false;
    }
    let mut i: usize = 0;
    while i < 20
        invariant
            v@.len() == 20,
            i <= 20,
            forall|k: int| 0 <= k < i ==> suffix_pos_ok(v@, k),
        decreases 20 - i,
    {
        let ok = if i % 5 == 0 {
            v[i] == ':'
        } else {
            is_hex_digit_char(v[i])
        };
        if !ok {
            proof {
                assert(!suffix_pos_ok(v@, i as int));
            }
            return false;
        }
        i = i + 1;
    }
    true
}

/// Whether the characters form one acceptable IPv6 group.
fn is_group_ok(g: &Vec<char>) -> (r: bool)
    ensures
        r == ipv6_group_ok(g@),
{
    if g.len() > 4 {
        return false;
    }
    let mut j: usize = 0;
    while j < g.len()
        invariant
            j <= g.len(),
            g@.len() <= 4,
            forall|k: int| 0 <= k < j ==> is_hex_digit(g@[k]),
        decreases g.len() - j,
    {
        if !is_hex_digit_char(g[j]) {
            return false;
        }
        j = j + 1;
    }
    true
}

/// Whether the characters match the general IPv6 shape.
pub fn is_ipv6_shaped(v: &Vec<char>) -> (r: bool)
    ensures
        r == ipv6_shaped(v@),
{
    let gs = split_colon_vec(v);
    if gs.len() < 2 || gs.len() > 8 {
        return false;
    }
    let mut i: usize = 0;
    while i < gs.len()
        invariant
            i <= gs.len(),
            group_views(gs@) == colon_split(v@),
            2 <= gs@.len() <= 8,
            forall|k: int| 0 <= k < i ==> ipv6_group_ok(colon_split(v@)[k]),
        decreases gs.len() - i,
    {
        if !is_group_ok(&gs[i]) {
            proof {
                assert(colon_split(v@)[i as int] == gs@[i as int]@);
            }
            return false;
        }
        i = i + 1;
        proof {
            assert(colon_split(v@)[i - 1] == gs@[i - 1]@);
        }
    }
    true
}

} // verus!

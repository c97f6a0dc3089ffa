use vstd::prelude::*;

use crate::conversions::{from_eui64_chars, spec_from_eui64, suffix_marked};
use crate::errors::ConversionError;
use crate::shape::suffix_shaped;
use crate::text::{
    chars_to_string, colon_split, copy_chars, find_dcolon, first_dcolon, group_views, join_colon,
    join_colon_vec, lemma_group_views_push, split_colon_vec, str_to_chars, subrange_vec,
};

verus! {

/// `n` characters `0`.
pub open spec fn zeros(n: nat) -> Seq<char> {
    Seq::new(n, |i: int| '0')
}

/// `n` groups holding a single `0` each, as `::` expands to.
pub open spec fn zero_groups(n: nat) -> Seq<Seq<char>> {
    Seq::new(n, |i: int| seq!['0'])
}

/// The zero-run expansion of an IPv6 address. A string without `::` is
/// returned unchanged. Otherwise the groups left of the first `::` and
/// the groups between it and the next `::` (or the end) are kept, and
/// enough `0` groups are put between them to make eight in all. If the
/// two sides already hold more than seven groups, `::` would stand for
/// no group at all, and the string is returned unchanged.
pub open spec fn spec_expand(s: Seq<char>) -> Seq<char> {
    let f = first_dcolon(s);
    if f < 0 {
        s
    } else {
        let rest = s.skip(f + 2);
        let f2 = first_dcolon(rest);
        let l = s.take(f);
        let r = if f2 < 0 {
            rest
        } else {
            rest.take(f2)
        };
        let lg = if l.len() == 0 {
            Seq::<Seq<char>>::empty()
        } else {
            colon_split(l)
        };
        let rg = if r.len() == 0 {
            Seq::<Seq<char>>::empty()
        } else {
            colon_split(r)
        };
        if lg.len() + rg.len() > 7 {
            s
        } else {
            join_colon(lg + zero_groups((8 - lg.len() - rg.len()) as nat) + rg)
        }
    }
}

/// A group left-padded with `0` to at least four characters.
pub open spec fn pad4(g: Seq<char>) -> Seq<char> {
    if g.len() >= 4 {
        g
    } else {
        zeros((4 - g.len()) as nat) + g
    }
}

/// The EUI-64 suffix candidate drawn from a token. A token that already
/// starts with a colon is taken as a bare suffix: its groups after the
/// leading colon are padded to four digits. Any other token is expanded
/// first, and the last four groups of the expansion are padded. Either
/// way the result gets a leading colon; whether it is a well-formed,
/// marked suffix is judged afterwards.
pub open spec fn spec_candidate(s: Seq<char>) -> Seq<char> {
    if s.len() > 0 && s[0] == ':' {
        seq![':'] + join_colon(colon_split(s).skip(1).map_values(|g: Seq<char>| pad4(g)))
    } else {
        let gs = colon_split(spec_expand(s));
        let tail = if gs.len() >= 4 {
            gs.skip(gs.len() - 4)
        } else {
            gs
        };
        seq![':'] + join_colon(tail.map_values(|g: Seq<char>| pad4(g)))
    }
}

/// Expansion on character vectors.
pub fn expand_chars(v: &Vec<char>) -> (r: Vec<char>)
    ensures
        r@ == spec_expand(v@),
{
    proof {
        assert(v@.skip(0) =~= v@);
    }
    let f = match find_dcolon(v, 0) {
        None => {
            return copy_chars(v);
        },
        Some(f) => f,
    };
    let left = subrange_vec(v, 0, f);
    let rest = subrange_vec(v, f + 2, v.len());
    proof {
        assert(rest@ =~= v@.skip(f as int + 2));
        assert(rest@.skip(0) =~= rest@);
    }
    let right = match find_dcolon(&rest, 0) {
        None => rest,
        Some(f2) => subrange_vec(&rest, 0, f2),
    };
    let lg: Vec<Vec<char>> = if left.len() == 0 {
        Vec::new()
    } else {
        split_colon_vec(&left)
    };
    let rg: Vec<Vec<char>> = if right.len() == 0 {
        Vec::new()
    } else {
        split_colon_vec(&right)
    };
    proof {
        assert(left@ =~= v@.take(f as int));
    }
    if lg.len() > 7 {
        return copy_chars(v);
    }
    if rg.len() > 7 - lg.len() {
        return copy_chars(v);
    }
    let zeros_needed = 8 - lg.len() - rg.len();
    let mut groups = lg;
    let ghost lgv = group_views(groups@);
    let mut i: usize = 0;
    while i < zeros_needed
        invariant
            i <= zeros_needed,
            group_views(groups@) == lgv + zero_groups(i as nat),
        decreases zeros_needed - i,
    {
        let mut z: Vec<char> = Vec::new();
        z.push('0');
        proof {
            assert(z@ =~= seq!['0']);
        }
        let ghost prev = groups@;
        let ghost zc = z;
        groups.push(z);
        i = i + 1;
        proof {
            lemma_group_views_push(prev, zc);
            assert(group_views(groups@) =~~= lgv + zero_groups(i as nat));
        }
    }
    let ghost rgv = group_views(rg@);
    let mut j: usize = 0;
    while j < rg.len()
        invariant
            j <= rg.len(),
            rgv == group_views(rg@),
            zeros_needed == 8 - lgv.len() - rgv.len(),
            group_views(groups@) == lgv + zero_groups(zeros_needed as nat) + rgv.take(j as int),
        decreases rg.len() - j,
    {
        let g = copy_chars(&rg[j]);
        proof {
            assert(rgv[j as int] == rg@[j as int]@);
        }
        let ghost prev = groups@;
        let ghost gc = g;
        groups.push(g);
        j = j + 1;
        proof {
            lemma_group_views_push(prev, gc);
            assert(group_views(groups@) =~~= lgv + zero_groups(zeros_needed as nat) + rgv.take(
                j as int,
            ));
        }
    }
    proof {
        assert(group_views(groups@) =~~= lgv + zero_groups(zeros_needed as nat) + rgv);
    }
    join_colon_vec(&groups)
}

/// Expands the `::` zero-compression run of an IPv6 address to eight
/// explicit groups. An address with no `::`, or one whose `::` could
/// stand for no group, is returned unchanged; group contents are not
/// validated here.
pub fn expand_ipv6(ipv6: &str) -> (r: String)
    ensures
        r@ == spec_expand(ipv6@),
{
    let v = str_to_chars(ipv6);
    let out = expand_chars(&v);
    chars_to_string(&out)
}

/// A group padded on the left with `0` to at least four characters.
fn pad_group(g: &Vec<char>) -> (r: Vec<char>)
    ensures
        r@ == pad4(g@),
{
    if g.len() >= 4 {
        copy_chars(g)
    } else {
        let need = 4 - g.len();
        let mut r: Vec<char> = Vec::new();
        let mut i: usize = 0;
        while i < need
            invariant
                i <= need,
                r@ == zeros(i as nat),
            decreases need - i,
        {
            r.push('0');
            i = i + 1;
            proof {
                assert(r@ =~= zeros(i as nat));
            }
        }
        let mut tail = copy_chars(g);
        r.append(&mut tail);
        proof {
            assert(r@ =~= pad4(g@));
        }
        r
    }
}

/// The suffix candidate of a token, on character vectors.
pub fn candidate_chars(v: &Vec<char>) -> (r: Vec<char>)
    ensures
        r@ == spec_candidate(v@),
{
    let mut out: Vec<char> = Vec::new();
    out.push(':');
    if v.len() > 0 && v[0] == ':' {
        let gs = split_colon_vec(v);
        let ghost gsv = colon_split(v@);
        let mut padded: Vec<Vec<char>> = Vec::new();
        let mut j: usize = 1;
        while j < gs.len()
            invariant
                1 <= j <= gs.len(),
                group_views(gs@) == gsv,
                gsv.len() == gs@.len(),
                group_views(padded@) == gsv.skip(1).take(j - 1).map_values(
                    |g: Seq<char>| pad4(g),
                ),
            decreases gs.len() - j,
        {
            let p = pad_group(&gs[j]);
            proof {
                assert(gsv[j as int] == gs@[j as int]@);
            }
            let ghost prev = padded@;
            let ghost pc = p;
            padded.push(p);
            j = j + 1;
            proof {
                lemma_group_views_push(prev, pc);
                assert(gsv.skip(1)[j - 2] == gsv[j - 1]);
                assert(group_views(padded@) =~~= gsv.skip(1).take(j - 1).map_values(
                    |g: Seq<char>| pad4(g),
                ));
            }
        }
        proof {
            assert(gsv.skip(1).take(gs@.len() - 1) =~~= gsv.skip(1));
        }
        let mut joined = join_colon_vec(&padded);
        out.append(&mut joined);
        proof {
            assert(out@ =~= spec_candidate(v@));
        }
        out
    } else {
        let e = expand_chars(v);
        let gs = split_colon_vec(&e);
        let ghost gsv = colon_split(spec_expand(v@));
        let start = if gs.len() >= 4 {
            gs.len() - 4
        } else {
            0
        };
        let ghost tail = if gsv.len() >= 4 {
            gsv.skip(gsv.len() - 4)
        } else {
            gsv
        };
        proof {
            assert(tail =~~= gsv.skip(start as int));
        }
        let mut padded: Vec<Vec<char>> = Vec::new();
        let mut j: usize = start;
        while j < gs.len()
            invariant
                start <= j <= gs.len(),
                group_views(gs@) == gsv,
                gsv.len() == gs@.len(),
                group_views(padded@) == gsv.skip(start as int).take(j - start).map_values(
                    |g: Seq<char>| pad4(g),
                ),
            decreases gs.len() - j,
        {
            let p = pad_group(&gs[j]);
            proof {
                assert(gsv[j as int] == gs@[j as int]@);
            }
            let ghost prev = padded@;
            let ghost pc = p;
            padded.push(p);
            j = j + 1;
            proof {
                lemma_group_views_push(prev, pc);
                assert(gsv.skip(start as int)[j - start - 1] == gsv[j - 1]);
                assert(group_views(padded@) =~~= gsv.skip(start as int).take(j - start).map_values(
                    |g: Seq<char>| pad4(g),
                ));
            }
        }
        proof {
            assert(gsv.skip(start as int).take(gs@.len() - start) =~~= gsv.skip(start as int));
        }
        let mut joined = join_colon_vec(&padded);
        out.append(&mut joined);
        proof {
            assert(out@ =~= spec_candidate(v@));
        }
        out
    }
}

/// The EUI-64 suffix candidate drawn from a token: a bare suffix is
/// zero-padded group by group, anything else is expanded first and its
/// last four groups are taken. The result is not yet validated.
pub fn extract_suffix(ipv6: &str) -> (r: String)
    ensures
        r@ == spec_candidate(ipv6@),
{
    let v = str_to_chars(ipv6);
    let out = candidate_chars(&v);
    chars_to_string(&out)
}

/// Recovers the MAC address encoded in an IPv6 address or bare EUI-64
/// suffix.
///
/// The token's suffix candidate (see [`extract_suffix`]) decides the
/// outcome: if it is suffix-shaped and carries the `ff`/`fe` marker the
/// MAC address is returned; a well-shaped candidate without the marker
/// is rejected as `MissingEui64Marker`, anything else as
/// `MalformedEui64`.
pub fn ipv6_to_mac(input: &str) -> (r: Result<String, ConversionError>)
    ensures
        ({
            let c = spec_candidate(input@);
            &&& suffix_shaped(c) && suffix_marked(c) ==> (r matches Ok(out) && out@
                == spec_from_eui64(c))
            &&& suffix_shaped(c) && !suffix_marked(c) ==> r == Err::<String, ConversionError>(
                ConversionError::MissingEui64Marker,
            )
            &&& !suffix_shaped(c) ==> r == Err::<String, ConversionError>(
                ConversionError::MalformedEui64,
            )
        }),
{
    let v = str_to_chars(input);
    let cand = candidate_chars(&v);
    match from_eui64_chars(&cand) {
        Ok(out) => Ok(chars_to_string(&out)),
        Err(e) => Err(e),
    }
}

} // verus!

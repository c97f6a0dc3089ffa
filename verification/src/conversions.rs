use vstd::prelude::*;

use crate::errors::ConversionError;
use crate::hex::{
    byte_hi, byte_lo, hex_char, hex_digit_value, is_hex_digit, lemma_byte_roundtrip,
    lemma_flip_involution, lemma_hex_digit_val_bound, lemma_pair_roundtrip, lower_hex, pair_val,
};
use crate::shape::{
    is_mac_shaped, is_suffix_shaped, mac_pos_ok, mac_shaped, suffix_pos_ok, suffix_shaped,
};
use crate::text::{chars_to_string, str_to_chars};

verus! {

/// The numeric value of octet `j` (0 to 5) of a MAC-shaped string.
pub open spec fn mac_octet(s: Seq<char>, j: int) -> u8 {
    pair_val(s[3 * j], s[3 * j + 1])
}

/// The numeric value of byte `k` (0 to 7) of a suffix-shaped string.
pub open spec fn suffix_byte(s: Seq<char>, k: int) -> u8 {
    pair_val(s[1 + 5 * (k / 2) + 2 * (k % 2)], s[2 + 5 * (k / 2) + 2 * (k % 2)])
}

/// The modified EUI-64 marker: byte 3 must be `ff` and byte 4 `fe`.
/// Comparing byte values makes the check case-insensitive.
pub open spec fn suffix_marked(s: Seq<char>) -> bool {
    suffix_byte(s, 3) == 0xff && suffix_byte(s, 4) == 0xfe
}

/// The EUI-64 suffix derived from a MAC-shaped string: the first octet
/// with its universal/local bit flipped, the `ff`/`fe` marker spliced
/// into the middle, everything rendered in lowercase hex.
pub open spec fn spec_to_eui64(m: Seq<char>) -> Seq<char> {
    let b0 = mac_octet(m, 0) ^ 0x02;
    let b1 = mac_octet(m, 1);
    let b2 = mac_octet(m, 2);
    let b3 = mac_octet(m, 3);
    let b4 = mac_octet(m, 4);
    let b5 = mac_octet(m, 5);
    seq![
        ':',
        byte_hi(b0),
        byte_lo(b0),
        byte_hi(b1),
        byte_lo(b1),
        ':',
        byte_hi(b2),
        byte_lo(b2),
        'f',
        'f',
        ':',
        'f',
        'e',
        byte_hi(b3),
        byte_lo(b3),
        ':',
        byte_hi(b4),
        byte_lo(b4),
        byte_hi(b5),
        byte_lo(b5),
    ]
}

/// The MAC address recovered from a marked suffix-shaped string: the
/// marker bytes 3 and 4 dropped, the universal/local bit of the first
/// byte flipped back, everything rendered in lowercase hex.
pub open spec fn spec_from_eui64(s: Seq<char>) -> Seq<char> {
    let c0 = suffix_byte(s, 0) ^ 0x02;
    let c1 = suffix_byte(s, 1);
    let c2 = suffix_byte(s, 2);
    let c5 = suffix_byte(s, 5);
    let c6 = suffix_byte(s, 6);
    let c7 = suffix_byte(s, 7);
    seq![
        byte_hi(c0),
        byte_lo(c0),
        ':',
        byte_hi(c1),
        byte_lo(c1),
        ':',
        byte_hi(c2),
        byte_lo(c2),
        ':',
        byte_hi(c5),
        byte_lo(c5),
        ':',
        byte_hi(c6),
        byte_lo(c6),
        ':',
        byte_hi(c7),
        byte_lo(c7),
    ]
}

/// A string with every hex digit lowercased, character for character.
pub open spec fn lower_hex_seq(s: Seq<char>) -> Seq<char> {
    Seq::new(s.len(), |i: int| lower_hex(s[i]))
}

/// The byte named by two hex digits, high digit first.
pub fn pair_value(hi: char, lo: char) -> (b: u8)
    requires
        is_hex_digit(hi),
        is_hex_digit(lo),
    ensures
        b == pair_val(hi, lo),
{
    let h = hex_digit_value(hi).unwrap();
    let l = hex_digit_value(lo).unwrap();
    proof {
        lemma_hex_digit_val_bound(hi);
        lemma_hex_digit_val_bound(lo);
    }
    h * 16 + l
}

/// Pushes the two lowercase hex digits of a byte.
fn push_byte_hex(out: &mut Vec<char>, b: u8)
    ensures
        final (out)@ == old(out)@ + seq![byte_hi(b), byte_lo(b)],
{
    let hi = hex_char(b / 16);
    let lo = hex_char(b % 16);
    out.push(hi);
    out.push(lo);
    proof {
        assert(out@ =~= old(out)@ + seq![byte_hi(b), byte_lo(b)]);
    }
}

/// The numeric value of octet `j` of a MAC-shaped character vector.
fn mac_octet_at(m: &Vec<char>, j: usize) -> (b: u8)
    requires
        mac_shaped(m@),
        j < 6,
    ensures
        b == mac_octet(m@, j as int),
{
    proof {
        assert(mac_pos_ok(m@, 3 * j as int));
        assert(mac_pos_ok(m@, 3 * j as int + 1));
    }
    let hi = m[3 * j];
    let lo = m[3 * j + 1];
    pair_value(hi, lo)
}

/// The numeric value of byte `k` of a suffix-shaped character vector.
fn suffix_byte_at(s: &Vec<char>, k: usize) -> (b: u8)
    requires
        suffix_shaped(s@),
        k < 8,
    ensures
        b == suffix_byte(s@, k as int),
{
    let p = 1 + 5 * (k / 2) + 2 * (k % 2);
    proof {
        assert(suffix_pos_ok(s@, p as int));
        assert(suffix_pos_ok(s@, p as int + 1));
        assert(p as int % 5 != 0 && (p as int + 1) % 5 != 0);
    }
    let hi = s[p];
    let lo = s[p + 1];
    pair_value(hi, lo)
}

/// MAC to EUI-64 suffix on character vectors.
pub fn to_eui64_chars(m: &Vec<char>) -> (r: Result<Vec<char>, ConversionError>)
    ensures
        mac_shaped(m@) ==> (r matches Ok(out) && out@ == spec_to_eui64(m@)),
        !mac_shaped(m@) ==> r == Err::<Vec<char>, ConversionError>(ConversionError::MalformedMac),
{
    if !is_mac_shaped(m) {
        return Err(ConversionError::MalformedMac);
    }
    let b0 = mac_octet_at(m, 0) ^ 0x02;
    let b1 = mac_octet_at(m, 1);
    let b2 = mac_octet_at(m, 2);
    let b3 = mac_octet_at(m, 3);
    let b4 = mac_octet_at(m, 4);
    let b5 = mac_octet_at(m, 5);
    let mut out: Vec<char> = Vec::new();
    out.push(':');
    push_byte_hex(&mut out, b0);
    push_byte_hex(&mut out, b1);
    out.push(':');
    push_byte_hex(&mut out, b2);
    out.push('f');
    out.push('f');
    out.push(':');
    out.push('f');
    out.push('e');
    push_byte_hex(&mut out, b3);
    out.push(':');
    push_byte_hex(&mut out, b4);
    push_byte_hex(&mut out, b5);
    proof {
        assert(out@ =~= spec_to_eui64(m@));
    }
    Ok(out)
}

/// EUI-64 suffix to MAC on character vectors.
pub fn from_eui64_chars(s: &Vec<char>) -> (r: Result<Vec<char>, ConversionError>)
    ensures
        suffix_shaped(s@) && suffix_marked(s@) ==> (r matches Ok(out) && out@
            == spec_from_eui64(s@)),
        suffix_shaped(s@) && !suffix_marked(s@) ==> r == Err::<Vec<char>, ConversionError>(
            ConversionError::MissingEui64Marker,
        ),
        !suffix_shaped(s@) ==> r == Err::<Vec<char>, ConversionError>(
            ConversionError::MalformedEui64,
        ),
{
    if !is_suffix_shaped(s) {
        return Err(ConversionError::MalformedEui64);
    }
    let b3 = suffix_byte_at(s, 3);
    let b4 = suffix_byte_at(s, 4);
    if !(b3 == 0xff && b4 == 0xfe) {
        return Err(ConversionError::MissingEui64Marker);
    }
    let c0 = suffix_byte_at(s, 0) ^ 0x02;
    let c1 = suffix_byte_at(s, 1);
    let c2 = suffix_byte_at(s, 2);
    let c5 = suffix_byte_at(s, 5);
    let c6 = suffix_byte_at(s, 6);
    let c7 = suffix_byte_at(s, 7);
    let mut out: Vec<char> = Vec::new();
    push_byte_hex(&mut out, c0);
    out.push(':');
    push_byte_hex(&mut out, c1);
    out.push(':');
    push_byte_hex(&mut out, c2);
    out.push(':');
    push_byte_hex(&mut out, c5);
    out.push(':');
    push_byte_hex(&mut out, c6);
    out.push(':');
    push_byte_hex(&mut out, c7);
    proof {
        assert(out@ =~= spec_from_eui64(s@));
    }
    Ok(out)
}

/// Converts a textual MAC address to its IPv6 EUI-64 suffix.
///
/// Succeeds exactly on MAC-shaped input (six colon-separated pairs of
/// hex digits); anything else is rejected as `MalformedMac` rather than
/// trapping on a failed hex parse.
pub fn to_eui64(mac_addr: &str) -> (r: Result<String, ConversionError>)
    ensures
        mac_shaped(mac_addr@) ==> (r matches Ok(out) && out@ == spec_to_eui64(mac_addr@)),
        !mac_shaped(mac_addr@) ==> r == Err::<String, ConversionError>(
            ConversionError::MalformedMac,
        ),
{
    let v = str_to_chars(mac_addr);
    match to_eui64_chars(&v) {
        Ok(out) => Ok(chars_to_string(&out)),
        Err(e) => Err(e),
    }
}

/// Converts a textual EUI-64 suffix back to its MAC address.
///
/// Succeeds exactly on suffix-shaped input (a leading colon and four
/// colon-separated groups of four hex digits) that carries the `ff`/`fe`
/// marker; a well-shaped suffix without the marker is rejected as
/// `MissingEui64Marker`, any other string as `MalformedEui64`.
pub fn from_eui64(eui64_suffix: &str) -> (r: Result<String, ConversionError>)
    ensures
        suffix_shaped(eui64_suffix@) && suffix_marked(eui64_suffix@) ==> (r matches Ok(out)
            && out@ == spec_from_eui64(eui64_suffix@)),
        suffix_shaped(eui64_suffix@) && !suffix_marked(eui64_suffix@) ==> r == Err::<
            String,
            ConversionError,
        >(ConversionError::MissingEui64Marker),
        !suffix_shaped(eui64_suffix@) ==> r == Err::<String, ConversionError>(
            ConversionError::MalformedEui64,
        ),
{
    let v = str_to_chars(eui64_suffix);
    match from_eui64_chars(&v) {
        Ok(out) => Ok(chars_to_string(&out)),
        Err(e) => Err(e),
    }
}

/// The suffix built from a MAC always carries the `ff`/`fe` marker: its
/// second group ends in `ff` and its third group starts with `fe`, and
/// it is itself suffix-shaped.
pub proof fn lemma_to_eui64_marked(m: Seq<char>)
    requires
        mac_shaped(m),
    ensures
        suffix_shaped(spec_to_eui64(m)),
        suffix_marked(spec_to_eui64(m)),
{
    let t = spec_to_eui64(m);
    lemma_byte_roundtrip(mac_octet(m, 0) ^ 0x02);
    lemma_byte_roundtrip(mac_octet(m, 1));
    lemma_byte_roundtrip(mac_octet(m, 2));
    lemma_byte_roundtrip(mac_octet(m, 3));
    lemma_byte_roundtrip(mac_octet(m, 4));
    lemma_byte_roundtrip(mac_octet(m, 5));
    assert(forall|i: int| 0 <= i < 20 ==> suffix_pos_ok(t, i)) by {
        assert(suffix_pos_ok(t, 0));
        assert(suffix_pos_ok(t, 1));
        assert(suffix_pos_ok(t, 2));
        assert(suffix_pos_ok(t, 3));
        assert(suffix_pos_ok(t, 4));
        assert(suffix_pos_ok(t, 5));
        assert(suffix_pos_ok(t, 6));
        assert(suffix_pos_ok(t, 7));
        assert(suffix_pos_ok(t, 8));
        assert(suffix_pos_ok(t, 9));
        assert(suffix_pos_ok(t, 10));
        assert(suffix_pos_ok(t, 11));
        assert(suffix_pos_ok(t, 12));
        assert(suffix_pos_ok(t, 13));
        assert(suffix_pos_ok(t, 14));
        assert(suffix_pos_ok(t, 15));
        assert(suffix_pos_ok(t, 16));
        assert(suffix_pos_ok(t, 17));
        assert(suffix_pos_ok(t, 18));
        assert(suffix_pos_ok(t, 19));
    }
    assert(suffix_byte(t, 3) == pair_val('f', 'f'));
    assert(suffix_byte(t, 4) == pair_val('f', 'e'));
}

/// Round trip from a MAC address: deriving the suffix and converting it
/// back yields the same MAC address, hex case normalized to lowercase.
pub proof fn lemma_mac_round_trip(m: Seq<char>)
    requires
        mac_shaped(m),
    ensures
        suffix_shaped(spec_to_eui64(m)),
        suffix_marked(spec_to_eui64(m)),
        spec_from_eui64(spec_to_eui64(m)) == lower_hex_seq(m),
{
    lemma_to_eui64_marked(m);
    let t = spec_to_eui64(m);
    let b0 = mac_octet(m, 0);
    lemma_byte_roundtrip(b0 ^ 0x02);
    lemma_byte_roundtrip(mac_octet(m, 1));
    lemma_byte_roundtrip(mac_octet(m, 2));
    lemma_byte_roundtrip(mac_octet(m, 3));
    lemma_byte_roundtrip(mac_octet(m, 4));
    lemma_byte_roundtrip(mac_octet(m, 5));
    lemma_flip_involution(b0);
    assert(mac_pos_ok(m, 0) && mac_pos_ok(m, 1));
    assert(mac_pos_ok(m, 3) && mac_pos_ok(m, 4));
    assert(mac_pos_ok(m, 6) && mac_pos_ok(m, 7));
    assert(mac_pos_ok(m, 9) && mac_pos_ok(m, 10));
    assert(mac_pos_ok(m, 12) && mac_pos_ok(m, 13));
    assert(mac_pos_ok(m, 15) && mac_pos_ok(m, 16));
    assert(mac_pos_ok(m, 2) && mac_pos_ok(m, 5) && mac_pos_ok(m, 8) && mac_pos_ok(m, 11)
        && mac_pos_ok(m, 14));
    lemma_pair_roundtrip(m[0], m[1]);
    lemma_pair_roundtrip(m[3], m[4]);
    lemma_pair_roundtrip(m[6], m[7]);
    lemma_pair_roundtrip(m[9], m[10]);
    lemma_pair_roundtrip(m[12], m[13]);
    lemma_pair_roundtrip(m[15], m[16]);
    assert(spec_from_eui64(t) =~= lower_hex_seq(m));
}

/// Round trip from a marked suffix: recovering the MAC address and
/// deriving the suffix again yields the same suffix, hex case
/// normalized to lowercase.
pub proof fn lemma_suffix_round_trip(s: Seq<char>)
    requires
        suffix_shaped(s),
        suffix_marked(s),
    ensures
        mac_shaped(spec_from_eui64(s)),
        spec_to_eui64(spec_from_eui64(s)) == lower_hex_seq(s),
{
    let mk = spec_from_eui64(s);
    let c0 = suffix_byte(s, 0);
    lemma_byte_roundtrip(c0 ^ 0x02);
    lemma_byte_roundtrip(suffix_byte(s, 1));
    lemma_byte_roundtrip(suffix_byte(s, 2));
    lemma_byte_roundtrip(suffix_byte(s, 5));
    lemma_byte_roundtrip(suffix_byte(s, 6));
    lemma_byte_roundtrip(suffix_byte(s, 7));
    lemma_flip_involution(c0);
    assert(forall|i: int| 0 <= i < 17 ==> mac_pos_ok(mk, i)) by {
        assert(mac_pos_ok(mk, 0));
        assert(mac_pos_ok(mk, 1));
        assert(mac_pos_ok(mk, 2));
        assert(mac_pos_ok(mk, 3));
        assert(mac_pos_ok(mk, 4));
        assert(mac_pos_ok(mk, 5));
        assert(mac_pos_ok(mk, 6));
        assert(mac_pos_ok(mk, 7));
        assert(mac_pos_ok(mk, 8));
        assert(mac_pos_ok(mk, 9));
        assert(mac_pos_ok(mk, 10));
        assert(mac_pos_ok(mk, 11));
        assert(mac_pos_ok(mk, 12));
        assert(mac_pos_ok(mk, 13));
        assert(mac_pos_ok(mk, 14));
        assert(mac_pos_ok(mk, 15));
        assert(mac_pos_ok(mk, 16));
    }
    assert(suffix_pos_ok(s, 1) && suffix_pos_ok(s, 2) && suffix_pos_ok(s, 3) && suffix_pos_ok(
        s,
        4,
    ));
    assert(suffix_pos_ok(s, 6) && suffix_pos_ok(s, 7) && suffix_pos_ok(s, 8) && suffix_pos_ok(
        s,
        9,
    ));
    assert(suffix_pos_ok(s, 11) && suffix_pos_ok(s, 12) && suffix_pos_ok(s, 13) && suffix_pos_ok(
        s,
        14,
    ));
    assert(suffix_pos_ok(s, 16) && suffix_pos_ok(s, 17) && suffix_pos_ok(s, 18) && suffix_pos_ok(
        s,
        19,
    ));
    assert(suffix_pos_ok(s, 0) && suffix_pos_ok(s, 5) && suffix_pos_ok(s, 10) && suffix_pos_ok(
        s,
        15,
    ));
    lemma_pair_roundtrip(s[1], s[2]);
    lemma_pair_roundtrip(s[3], s[4]);
    lemma_pair_roundtrip(s[6], s[7]);
    lemma_pair_roundtrip(s[8], s[9]);
    lemma_pair_roundtrip(s[11], s[12]);
    lemma_pair_roundtrip(s[13], s[14]);
    lemma_pair_roundtrip(s[16], s[17]);
    lemma_pair_roundtrip(s[18], s[19]);
    assert(spec_to_eui64(mk) =~= lower_hex_seq(s));
}

} // verus!

use vstd::prelude::*;

verus! {

/// A character that may stand inside a hex group: `0`-`9`, `a`-`f` or
/// `A`-`F`. Input is case-insensitive throughout the crate.
pub open spec fn is_hex_digit(c: char) -> bool {
    (48 <= c as u32 && c as u32 <= 57) || (97 <= c as u32 && c as u32 <= 102) || (65 <= c as u32
        && c as u32 <= 70)
}

/// The numeric value of a hex digit (0 for anything else).
pub open spec fn hex_digit_val(c: char) -> u8 {
    if 48 <= c as u32 && c as u32 <= 57 {
        (c as u32 - 48) as u8
    } else if 97 <= c as u32 && c as u32 <= 102 {
        (c as u32 - 87) as u8
    } else if 65 <= c as u32 && c as u32 <= 70 {
        (c as u32 - 55) as u8
    } else {
        0
    }
}

/// The canonical (lowercase) hex digit for a value below 16.
pub open spec fn lower_hex_digit(v: u8) -> char {
    if v == 0 {
        '0'
    } else if v == 1 {
        '1'
    } else if v == 2 {
        '2'
    } else if v == 3 {
        '3'
    } else if v == 4 {
        '4'
    } else if v == 5 {
        '5'
    } else if v == 6 {
        '6'
    } else if v == 7 {
        '7'
    } else if v == 8 {
        '8'
    } else if v == 9 {
        '9'
    } else if v == 10 {
        'a'
    } else if v == 11 {
        'b'
    } else if v == 12 {
        'c'
    } else if v == 13 {
        'd'
    } else if v == 14 {
        'e'
    } else {
        'f'
    }
}

/// Lowercasing as this crate performs it: hex digits are mapped to their
/// canonical lowercase digit, every other character is left alone.
pub open spec fn lower_hex(c: char) -> char {
    if is_hex_digit(c) {
        lower_hex_digit(hex_digit_val(c))
    } else {
        c
    }
}

/// The byte named by a pair of hex digits, high digit first.
pub open spec fn pair_val(hi: char, lo: char) -> u8 {
    (hex_digit_val(hi) * 16 + hex_digit_val(lo)) as u8
}

/// High hex digit of a byte, in canonical lowercase.
pub open spec fn byte_hi(b: u8) -> char {
    lower_hex_digit((b / 16) as u8)
}

/// Low hex digit of a byte, in canonical lowercase.
pub open spec fn byte_lo(b: u8) -> char {
    lower_hex_digit((b % 16) as u8)
}

/// The two-digit lowercase rendering of a byte.
pub open spec fn byte_hex(b: u8) -> Seq<char> {
    seq![byte_hi(b), byte_lo(b)]
}

pub proof fn lemma_hex_digit_val_bound(c: char)
    requires
        is_hex_digit(c),
    ensures
        hex_digit_val(c) < 16,
{
}

/// A canonical lowercase digit names the value it was formatted from.
pub proof fn lemma_digit_roundtrip(v: u8)
    requires
        v < 16,
    ensures
        is_hex_digit(lower_hex_digit(v)),
        hex_digit_val(lower_hex_digit(v)) == v,
        lower_hex(lower_hex_digit(v)) == lower_hex_digit(v),
{
}

/// Formatting a byte and reading the two digits back is the identity.
pub proof fn lemma_byte_roundtrip(b: u8)
    ensures
        is_hex_digit(byte_hi(b)),
        is_hex_digit(byte_lo(b)),
        pair_val(byte_hi(b), byte_lo(b)) == b,
{
    let h = (b / 16) as u8;
    let l = (b % 16) as u8;
    assert(h < 16 && l < 16);
    lemma_digit_roundtrip(h);
    lemma_digit_roundtrip(l);
    assert(h * 16 + l == b);
}

/// Reading a pair of hex digits and formatting the byte back yields the
/// same two digits, lowercased.
pub proof fn lemma_pair_roundtrip(hi: char, lo: char)
    requires
        is_hex_digit(hi),
        is_hex_digit(lo),
    ensures
        byte_hi(pair_val(hi, lo)) == lower_hex(hi),
        byte_lo(pair_val(hi, lo)) == lower_hex(lo),
{
    let h = hex_digit_val(hi);
    let l = hex_digit_val(lo);
    lemma_hex_digit_val_bound(hi);
    lemma_hex_digit_val_bound(lo);
    assert((h * 16 + l) / 16 == h && (h * 16 + l) % 16 == l) by (nonlinear_arith)
        requires
            h < 16,
            l < 16,
    ;
}

/// Flipping the universal/local bit is an involution: XOR with 0x02
/// applied twice returns the original byte.
pub proof fn lemma_flip_involution(b: u8)
    ensures
        (b ^ 0x02) ^ 0x02 == b,
{
    assert((b ^ 0x02) ^ 0x02 == b) by (bit_vector);
}

/// The numeric value of a hex digit, or `None` for any other character.
pub fn hex_digit_value(c: char) -> (r: Option<u8>)
    ensures
        is_hex_digit(c) ==> r == Some(hex_digit_val(c)),
        !is_hex_digit(c) ==> r is None,
{
    let u = c as u32;
    if 48 <= u && u <= 57 {
        Some((u - 48) as u8)
    } else if 97 <= u && u <= 102 {
        Some((u - 87) as u8)
    } else if 65 <= u && u <= 70 {
        Some((u - 55) as u8)
    } else {
        None
    }
}

/// The canonical lowercase hex digit for a value below 16.
pub fn hex_char(v: u8) -> (c: char)
    requires
        v < 16,
    ensures
        c == lower_hex_digit(v),
{
    match v {
        0 => '0',
        1 => '1',
        2 => '2',
        3 => '3',
        4 => '4',
        5 => '5',
        6 => '6',
        7 => '7',
        8 => '8',
        9 => '9',
        10 => 'a',
        11 => 'b',
        12 => 'c',
        13 => 'd',
        14 => 'e',
        _ => 'f',
    }
}

/// Whether a character is a hex digit.
pub fn is_hex_digit_char(c: char) -> (r: bool)
    ensures
        r == is_hex_digit(c),
{
    let u = c as u32;
    (48 <= u && u <= 57) || (97 <= u && u <= 102) || (65 <= u && u <= 70)
}

} // verus!

use vstd::prelude::*;

use crate::shape::{ipv6_shaped, is_ipv6_shaped, is_mac_shaped, is_suffix_shaped, mac_shaped,
    suffix_shaped};
use crate::text::{str_eq, str_to_chars};

verus! {

/// The six kinds a raw token can be.
#[derive(Clone, Copy, Debug, PartialEq, Eq, Structural)]
pub enum InputClass {
    Flag,
    Interface,
    MacAddress,
    Eui64Suffix,
    Ipv6Address,
    Invalid,
}

/// Classification of one token against the known interface names.
///
/// The first match wins, in this fixed priority order: a token starting
/// with `-` is an option flag; a token equal to a known interface name
/// names that interface; then come the MAC, EUI-64 suffix and general
/// IPv6 shapes; everything else is invalid. Being a chain of exclusive
/// tests, the classification is total and unambiguous: every token
/// falls in exactly one class (and the MAC and suffix shapes could not
/// overlap anyway; see `shape::lemma_mac_suffix_disjoint`).
pub open spec fn spec_classify(token: Seq<char>, names: Seq<Seq<char>>) -> InputClass {
    if token.len() > 0 && token[0] == '-' {
        InputClass::Flag
    } else if names.contains(token) {
        InputClass::Interface
    } else if mac_shaped(token) {
        InputClass::MacAddress
    } else if suffix_shaped(token) {
        InputClass::Eui64Suffix
    } else if ipv6_shaped(token) {
        InputClass::Ipv6Address
    } else {
        InputClass::Invalid
    }
}

/// Whether the token equals one of the known names.
fn contains_name(names: &Vec<String>, token: &str) -> (r: bool)
    ensures
        r == names.deep_view().contains(token@),
{
    let mut i: usize = 0;
    while i < names.len()
        invariant
            i <= names.len(),
            forall|k: int| 0 <= k < i ==> names.deep_view()[k] != token@,
        decreases names.len() - i,
    {
        let name = &names[i];
        if str_eq(name.as_str(), token) {
            proof {
                assert(names.deep_view()[i as int] == token@);
            }
            return true;
        }
        i = i + 1;
    }
    proof {
        assert(!names.deep_view().contains(token@));
    }
    false
}

/// Classifies one token; see [`spec_classify`] for the priority order.
pub fn classify(token: &str, names: &Vec<String>) -> (r: InputClass)
    ensures
        r == spec_classify(token@, names.deep_view()),
{
    let v = str_to_chars(token);
    if v.len() > 0 {
        let c = v[0];
        if c == '-' {
            return InputClass::Flag;
        }
    }
    if contains_name(names, token) {
        return InputClass::Interface;
    }
    if is_mac_shaped(&v) {
        return InputClass::MacAddress;
    }
    if is_suffix_shaped(&v) {
        return InputClass::Eui64Suffix;
    }
    if is_ipv6_shaped(&v) {
        return InputClass::Ipv6Address;
    }
    InputClass::Invalid
}

} // verus!

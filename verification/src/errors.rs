use vstd::prelude::*;

verus! {

/// Everything that can go wrong while classifying or converting one token.
///
/// Each variant names one failure the pipeline can report:
/// - `ClassificationInvalid`: the token matches none of the known shapes.
/// - `MissingMacAddress`: a named interface exists but has no MAC address.
/// - `MalformedMac`: a MAC-to-suffix conversion was asked of a string that
///   is not six colon-separated pairs of hex digits.
/// - `MalformedEui64`: a suffix-to-MAC conversion was asked of a string
///   that is not a leading colon followed by four colon-separated groups
///   of four hex digits.
/// - `MissingEui64Marker`: the suffix is well-formed but its middle bytes
///   are not the `ff`/`fe` marker of a MAC-derived identifier.
#[derive(Clone, Copy, Debug, PartialEq, Eq, Structural)]
pub enum ConversionError {
    ClassificationInvalid,
    MissingMacAddress,
    MalformedMac,
    MalformedEui64,
    MissingEui64Marker,
}

} // verus!

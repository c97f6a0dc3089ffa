//! Conversions between the textual forms of network-interface identity:
//! 48-bit MAC addresses, their derived IPv6 modified EUI-64 interface
//! identifiers, and full IPv6 addresses that end in such an identifier.
//!
//! The crate classifies a raw token as one of six input kinds, expands
//! `::`-compressed IPv6 addresses, and converts losslessly between a MAC
//! address and its `ff:fe`-marked EUI-64 suffix, flipping the
//! universal/local bit on the way. Everything here is pure computation on
//! strings; enumerating the host's interfaces is left to the caller, which
//! only has to hand in the known interface names and, on request, the MAC
//! address of one of them.

pub mod classify;
pub mod conversions;
pub mod dispatch;
pub mod errors;
pub mod expand;
pub mod hex;
pub mod options;
pub mod shape;
pub mod text;

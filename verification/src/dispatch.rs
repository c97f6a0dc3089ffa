use vstd::prelude::*;

use crate::classify::{classify, spec_classify, InputClass};
use crate::conversions::{spec_from_eui64, spec_to_eui64, suffix_marked, to_eui64};
use crate::errors::ConversionError;
use crate::expand::{ipv6_to_mac, spec_candidate};
use crate::options::{handle_option, spec_handle_option, Flag};
use crate::shape::{mac_shaped, suffix_shaped};

verus! {

/// What the caller should do about one token.
#[derive(Debug)]
pub enum Response {
    /// The token names a known interface: look its MAC address up and
    /// hand the result to `resolve_interface`.
    InterfaceQuery,
    /// The token was a MAC address; this is its EUI-64 suffix.
    Suffix(String),
    /// The token was an IPv6 address or an EUI-64 suffix; this is the
    /// MAC address it encodes.
    Mac(String),
    /// The token asked for the usage text.
    Help,
    /// The token asked for the version line.
    Version,
    /// The token looks like an option flag but is not a known one.
    UnknownOption,
    /// The token could not be processed; report this error.
    Failure(ConversionError),
}

/// Classifies one token and carries out the conversion it asks for.
///
/// Every class of token gets exactly one response: a flag is resolved
/// to help, version or an unknown-option notice; a known interface name
/// becomes a query the caller must answer; a MAC address becomes its
/// suffix; a suffix or IPv6 address becomes the MAC address it encodes,
/// or the error its candidate suffix earns; anything else fails as
/// unclassifiable.
pub fn dispatch_token(token: &str, names: &Vec<String>) -> (r: Response)
    ensures
        ({
            let cls = spec_classify(token@, names.deep_view());
            &&& cls == InputClass::Flag && spec_handle_option(token@) == Some(Flag::Help) ==> r
                == Response::Help
            &&& cls == InputClass::Flag && spec_handle_option(token@) == Some(Flag::Version) ==> r
                == Response::Version
            &&& cls == InputClass::Flag && spec_handle_option(token@) is None ==> r
                == Response::UnknownOption
            &&& cls == InputClass::Interface ==> r == Response::InterfaceQuery
            &&& cls == InputClass::MacAddress ==> (r matches Response::Suffix(s) && s@
                == spec_to_eui64(token@))
            &&& cls == InputClass::Eui64Suffix || cls == InputClass::Ipv6Address ==> ({
                let c = spec_candidate(token@);
                if suffix_shaped(c) && suffix_marked(c) {
                    r matches Response::Mac(m) && m@ == spec_from_eui64(c)
                } else if suffix_shaped(c) {
                    r == Response::Failure(ConversionError::MissingEui64Marker)
                } else {
                    r == Response::Failure(ConversionError::MalformedEui64)
                }
            })
            &&& cls == InputClass::Invalid ==> r == Response::Failure(
                ConversionError::ClassificationInvalid,
            )
        }),
{
    match classify(token, names) {
        InputClass::Flag => match handle_option(token) {
            Some(Flag::Help) => Response::Help,
            Some(Flag::Version) => Response::Version,
            None => Response::UnknownOption,
        },
        InputClass::Interface => Response::InterfaceQuery,
        InputClass::MacAddress => match to_eui64(token) {
            Ok(s) => Response::Suffix(s),
            Err(e) => Response::Failure(e),
        },
        InputClass::Eui64Suffix => match ipv6_to_mac(token) {
            Ok(m) => Response::Mac(m),
            Err(e) => Response::Failure(e),
        },
        InputClass::Ipv6Address => match ipv6_to_mac(token) {
            Ok(m) => Response::Mac(m),
            Err(e) => Response::Failure(e),
        },
        InputClass::Invalid => Response::Failure(ConversionError::ClassificationInvalid),
    }
}

/// The suffix line for one named interface, given the MAC address the
/// caller found for it: an interface without a MAC address is the
/// `MissingMacAddress` error, one whose address is not MAC-shaped the
/// `MalformedMac` error.
pub fn resolve_interface(mac_addr: Option<String>) -> (r: Result<String, ConversionError>)
    ensures
        mac_addr matches Some(m) ==> ((mac_shaped(m@) ==> (r matches Ok(s) && s@ == spec_to_eui64(
            m@,
        ))) && (!mac_shaped(m@) ==> r == Err::<String, ConversionError>(
            ConversionError::MalformedMac,
        ))),
        mac_addr is None ==> r == Err::<String, ConversionError>(
            ConversionError::MissingMacAddress,
        ),
{
    match mac_addr {
        None => Err(ConversionError::MissingMacAddress),
        Some(m) => to_eui64(m.as_str()),
    }
}

} // verus!

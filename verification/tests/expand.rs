use eui64tool::errors::ConversionError;
use eui64tool::expand::{expand_ipv6, extract_suffix, ipv6_to_mac};

#[test]
fn expand_examples() {
    assert_eq!(expand_ipv6("2001:db8::1"), "2001:db8:0:0:0:0:0:1");
    assert_eq!(expand_ipv6("::1"), "0:0:0:0:0:0:0:1");
    assert_eq!(expand_ipv6("fe80::"), "fe80:0:0:0:0:0:0:0");
}

#[test]
fn expand_without_compression_is_unchanged() {
    assert_eq!(expand_ipv6("1:2:3:4:5:6:7:8"), "1:2:3:4:5:6:7:8");
    assert_eq!(expand_ipv6("abcd"), "abcd");
    assert_eq!(expand_ipv6(""), "");
}

#[test]
fn expand_lone_compression() {
    assert_eq!(expand_ipv6("::"), "0:0:0:0:0:0:0:0");
}

#[test]
fn expand_overfull_compression_is_unchanged() {
    assert_eq!(expand_ipv6("1:2:3:4:5:6:7:8::9"), "1:2:3:4:5:6:7:8::9");
}

#[test]
fn extract_suffix_from_bare_suffix() {
    assert_eq!(extract_suffix(":42:acff:fe11:2"), ":0042:acff:fe11:0002");
    assert_eq!(extract_suffix(":0042:acff:fe11:0002"), ":0042:acff:fe11:0002");
}

#[test]
fn extract_suffix_from_full_address() {
    assert_eq!(
        extract_suffix("2001:db8::0042:acff:fe11:0002"),
        ":0042:acff:fe11:0002"
    );
    assert_eq!(extract_suffix("fe80::42:acff:fe11:2"), ":0042:acff:fe11:0002");
}

#[test]
fn ipv6_to_mac_example() {
    assert_eq!(
        ipv6_to_mac("2001:db8::0042:acff:fe11:0002"),
        Ok(String::from("02:42:ac:11:00:02"))
    );
}

#[test]
fn ipv6_to_mac_bare_suffix() {
    assert_eq!(
        ipv6_to_mac(":0042:acff:fe11:0002"),
        Ok(String::from("02:42:ac:11:00:02"))
    );
}

#[test]
fn ipv6_to_mac_missing_marker() {
    assert_eq!(
        ipv6_to_mac("2001:db8::0042:ab11:fe11:0002"),
        Err(ConversionError::MissingEui64Marker)
    );
}

#[test]
fn ipv6_to_mac_malformed() {
    assert_eq!(ipv6_to_mac("1:2:3"), Err(ConversionError::MalformedEui64));
}

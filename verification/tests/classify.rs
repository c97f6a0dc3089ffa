use eui64tool::classify::{classify, InputClass};
use eui64tool::options::{handle_option, Flag};

fn names() -> Vec<String> {
    vec![String::from("eth0"), String::from("lo")]
}

#[test]
fn classify_flag() {
    assert_eq!(classify("-h", &names()), InputClass::Flag);
    assert_eq!(classify("--version", &names()), InputClass::Flag);
    assert_eq!(classify("-anything", &names()), InputClass::Flag);
}

#[test]
fn classify_interface() {
    assert_eq!(classify("eth0", &names()), InputClass::Interface);
    assert_eq!(classify("lo", &names()), InputClass::Interface);
    assert_eq!(classify("wlan0", &names()), InputClass::Invalid);
}

#[test]
fn classify_mac() {
    assert_eq!(classify("02:42:ac:11:00:02", &names()), InputClass::MacAddress);
    assert_eq!(classify("AA:BB:CC:DD:EE:FF", &names()), InputClass::MacAddress);
}

#[test]
fn classify_suffix() {
    assert_eq!(
        classify(":0042:acff:fe11:0002", &names()),
        InputClass::Eui64Suffix
    );
}

#[test]
fn classify_ipv6() {
    assert_eq!(classify("2001:db8::1", &names()), InputClass::Ipv6Address);
    assert_eq!(classify("::1", &names()), InputClass::Ipv6Address);
    assert_eq!(
        classify("2001:db8::0042:acff:fe11:0002", &names()),
        InputClass::Ipv6Address
    );
    // A short suffix-like token with groups under four digits falls to
    // the general IPv6 shape, not the suffix shape.
    assert_eq!(classify(":42:acff:fe11:2", &names()), InputClass::Ipv6Address);
}

#[test]
fn classify_invalid() {
    assert_eq!(classify("hello!", &names()), InputClass::Invalid);
    assert_eq!(classify("02:42:ac:11:00:0g", &names()), InputClass::Invalid);
    assert_eq!(classify("", &names()), InputClass::Invalid);
    assert_eq!(classify("1:2:3:4:5:6:7:8:9", &names()), InputClass::Invalid);
}

#[test]
fn classify_priority_interface_over_mac() {
    let tricky = vec![String::from("02:42:ac:11:00:02")];
    assert_eq!(classify("02:42:ac:11:00:02", &tricky), InputClass::Interface);
}

#[test]
fn classify_priority_flag_over_interface() {
    let tricky = vec![String::from("-h")];
    assert_eq!(classify("-h", &tricky), InputClass::Flag);
}

#[test]
fn handle_option_known() {
    assert_eq!(handle_option("-h"), Some(Flag::Help));
    assert_eq!(handle_option("--help"), Some(Flag::Help));
    assert_eq!(handle_option("-v"), Some(Flag::Version));
    assert_eq!(handle_option("--version"), Some(Flag::Version));
}

#[test]
fn handle_option_unknown() {
    assert_eq!(handle_option("-x"), None);
    assert_eq!(handle_option("--helpp"), None);
    assert_eq!(handle_option("h"), None);
}

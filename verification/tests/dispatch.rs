use eui64tool::dispatch::{dispatch_token, resolve_interface, Response};
use eui64tool::errors::ConversionError;

fn names() -> Vec<String> {
    vec![String::from("eth0"), String::from("lo")]
}

#[test]
fn dispatch_help_and_version() {
    assert!(matches!(dispatch_token("-h", &names()), Response::Help));
    assert!(matches!(dispatch_token("--help", &names()), Response::Help));
    assert!(matches!(dispatch_token("-v", &names()), Response::Version));
    assert!(matches!(
        dispatch_token("--version", &names()),
        Response::Version
    ));
}

#[test]
fn dispatch_unknown_option() {
    assert!(matches!(
        dispatch_token("-x", &names()),
        Response::UnknownOption
    ));
}

#[test]
fn dispatch_interface() {
    assert!(matches!(
        dispatch_token("eth0", &names()),
        Response::InterfaceQuery
    ));
}

#[test]
fn dispatch_mac() {
    match dispatch_token("02:42:ac:11:00:02", &names()) {
        Response::Suffix(s) => assert_eq!(s, ":0042:acff:fe11:0002"),
        other => panic!("expected a suffix, got {:?}", other),
    }
}

#[test]
fn dispatch_suffix() {
    match dispatch_token(":0042:acff:fe11:0002", &names()) {
        Response::Mac(m) => assert_eq!(m, "02:42:ac:11:00:02"),
        other => panic!("expected a MAC address, got {:?}", other),
    }
}

#[test]
fn dispatch_full_address() {
    match dispatch_token("2001:db8::0042:acff:fe11:0002", &names()) {
        Response::Mac(m) => assert_eq!(m, "02:42:ac:11:00:02"),
        other => panic!("expected a MAC address, got {:?}", other),
    }
}

#[test]
fn dispatch_missing_marker() {
    assert!(matches!(
        dispatch_token(":0042:ab11:fe11:0002", &names()),
        Response::Failure(ConversionError::MissingEui64Marker)
    ));
}

#[test]
fn dispatch_invalid() {
    assert!(matches!(
        dispatch_token("hello!", &names()),
        Response::Failure(ConversionError::ClassificationInvalid)
    ));
}

#[test]
fn resolve_interface_with_mac() {
    assert_eq!(
        resolve_interface(Some(String::from("02:42:ac:11:00:02"))),
        Ok(String::from(":0042:acff:fe11:0002"))
    );
}

#[test]
fn resolve_interface_without_mac() {
    assert_eq!(
        resolve_interface(None),
        Err(ConversionError::MissingMacAddress)
    );
}

#[test]
fn resolve_interface_with_bad_mac() {
    assert_eq!(
        resolve_interface(Some(String::from("junk"))),
        Err(ConversionError::MalformedMac)
    );
}

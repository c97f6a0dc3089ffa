use eui64tool::conversions::{from_eui64, to_eui64};
use eui64tool::errors::ConversionError;

#[test]
fn to_eui64_example() {
    assert_eq!(
        to_eui64("02:42:ac:11:00:02"),
        Ok(String::from(":0042:acff:fe11:0002"))
    );
}

#[test]
fn from_eui64_example() {
    assert_eq!(
        from_eui64(":0042:acff:fe11:0002"),
        Ok(String::from("02:42:ac:11:00:02"))
    );
}

#[test]
fn to_eui64_flips_universal_local_bit() {
    assert_eq!(
        to_eui64("00:00:00:00:00:00"),
        Ok(String::from(":0200:00ff:fe00:0000"))
    );
    assert_eq!(
        to_eui64("ff:ff:ff:ff:ff:ff"),
        Ok(String::from(":fdff:ffff:feff:ffff"))
    );
}

#[test]
fn to_eui64_normalizes_case() {
    assert_eq!(
        to_eui64("AA:BB:CC:DD:EE:FF"),
        Ok(String::from(":a8bb:ccff:fedd:eeff"))
    );
}

#[test]
fn from_eui64_normalizes_case() {
    assert_eq!(
        from_eui64(":A8BB:CCFF:FEDD:EEFF"),
        Ok(String::from("aa:bb:cc:dd:ee:ff"))
    );
}

#[test]
fn to_eui64_rejects_malformed() {
    assert_eq!(to_eui64("not-a-mac"), Err(ConversionError::MalformedMac));
    assert_eq!(to_eui64("02:42:ac:11:00"), Err(ConversionError::MalformedMac));
    assert_eq!(
        to_eui64("02:42:ac:11:00:0g"),
        Err(ConversionError::MalformedMac)
    );
    assert_eq!(to_eui64(""), Err(ConversionError::MalformedMac));
}

#[test]
fn from_eui64_missing_marker() {
    assert_eq!(
        from_eui64(":0042:ab11:fe11:0002"),
        Err(ConversionError::MissingEui64Marker)
    );
    assert_eq!(
        from_eui64(":0042:acff:ab11:0002"),
        Err(ConversionError::MissingEui64Marker)
    );
}

#[test]
fn from_eui64_accepts_uppercase_marker() {
    assert_eq!(
        from_eui64(":0042:acFF:FE11:0002"),
        Ok(String::from("02:42:ac:11:00:02"))
    );
}

#[test]
fn from_eui64_rejects_malformed() {
    assert_eq!(
        from_eui64("0042:acff:fe11:0002"),
        Err(ConversionError::MalformedEui64)
    );
    assert_eq!(from_eui64(":0042:acff:fe11"), Err(ConversionError::MalformedEui64));
    assert_eq!(from_eui64(""), Err(ConversionError::MalformedEui64));
}

#[test]
fn mac_round_trip() {
    let macs = [
        "02:42:ac:11:00:02",
        "00:00:00:00:00:00",
        "ff:ff:ff:ff:ff:ff",
        "a0:b1:c2:d3:e4:f5",
    ];
    for mac in macs {
        let suffix = to_eui64(mac).unwrap();
        assert_eq!(from_eui64(&suffix), Ok(String::from(mac)));
    }
}

#[test]
fn suffix_round_trip() {
    let suffixes = [
        ":0042:acff:fe11:0002",
        ":0200:00ff:fe00:0000",
        ":fdff:ffff:feff:ffff",
    ];
    for suffix in suffixes {
        let mac = from_eui64(suffix).unwrap();
        assert_eq!(to_eui64(&mac), Ok(String::from(suffix)));
    }
}

#[test]
fn mac_round_trip_lowercases() {
    let suffix = to_eui64("AA:BB:CC:DD:EE:FF").unwrap();
    assert_eq!(from_eui64(&suffix), Ok(String::from("aa:bb:cc:dd:ee:ff")));
}

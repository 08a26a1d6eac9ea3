use wifi_qr::{ConectionSettings, Error, ParseError};

#[test]
fn test_signatures() {
    assert_eq!(ConectionSettings::signature(), "a{sa{sv}}");
}

#[test]
fn test_parse() {
    let qr_str = "WIFI:S:test-ssid;T:WPA;P:00000000000000000;H:false;;";
    let mut c = ConectionSettings::parse(qr_str).unwrap();
    c.connection.uuid = uuid::Uuid::new_v4().to_string();

    assert_eq!(c.connection.uuid, c.connection.uuid);
    assert_eq!("test-ssid".as_bytes(), &c.wifi.ssid);
    assert_eq!("00000000000000000", &c.security.psk);
}

#[test]
fn parse_example_fixed_fields() {
    let c = ConectionSettings::parse("WIFI:S:test-ssid;T:WPA;P:00000000000000000;H:false;;")
        .unwrap();
    assert_eq!("test-ssid".as_bytes(), &c.wifi.ssid[..]);
    assert_eq!(c.security.psk, "00000000000000000");
    assert_eq!(c.connection.kind, "802-11-wireless");
    assert_eq!(c.connection.id, "test-ssid");
    assert_eq!(c.wifi.mode, "infrastructure");
    assert_eq!(c.security.key_mgmt, "wpa-psk");
    assert_eq!(c.security.auth_alg, "open");
    assert_eq!(c.ipv4.method, "auto");
    assert_eq!(c.ipv6.method, "ignore");
}

#[test]
fn parse_missing_ssid() {
    let e = ConectionSettings::parse("WIFI:P:secret;T:WPA;;").unwrap_err();
    assert_eq!(e, ParseError("SSID not found"));
}

#[test]
fn parse_missing_passphrase() {
    let e = ConectionSettings::parse("WIFI:S:net;T:WPA;;").unwrap_err();
    assert_eq!(e, ParseError("Passphrase not found"));
}

#[test]
fn parse_empty_input() {
    let e = ConectionSettings::parse("").unwrap_err();
    assert_eq!(e, ParseError("SSID not found"));
}

#[test]
fn parse_empty_ssid_value() {
    let e = ConectionSettings::parse("S:;P:secret").unwrap_err();
    assert_eq!(e, ParseError("SSID not found"));
}

#[test]
fn parse_empty_passphrase_value() {
    let e = ConectionSettings::parse("WIFI:S:net;P:;;").unwrap_err();
    assert_eq!(e, ParseError("Passphrase not found"));
}

#[test]
fn parse_both_values_empty() {
    let e = ConectionSettings::parse("S:;P:;").unwrap_err();
    assert_eq!(e, ParseError("SSID not found"));
}

#[test]
fn parse_field_order_and_prefix_optional() {
    let c = ConectionSettings::parse("P:pw;S:net").unwrap();
    assert_eq!("net".as_bytes(), &c.wifi.ssid[..]);
    assert_eq!(c.security.psk, "pw");

    let c = ConectionSettings::parse("S:net;P:pw;;").unwrap();
    assert_eq!(c.connection.id, "net");
    assert_eq!(c.security.psk, "pw");
}

#[test]
fn parse_last_duplicate_key_wins() {
    let c = ConectionSettings::parse("S:first;P:pw;S:second").unwrap();
    assert_eq!("second".as_bytes(), &c.wifi.ssid[..]);
    assert_eq!(c.connection.id, "second");
}

#[test]
fn parse_value_keeps_later_colons() {
    let c = ConectionSettings::parse("S:net;P:a:b:c").unwrap();
    assert_eq!(c.security.psk, "a:b:c");
}

#[test]
fn parse_uuid_is_hyphenated_v4() {
    let c = ConectionSettings::parse("S:net;P:pw").unwrap();
    let u = c.connection.uuid.as_bytes();
    assert_eq!(u.len(), 36);
    for (i, b) in u.iter().enumerate() {
        if i == 8 || i == 13 || i == 18 || i == 23 {
            assert_eq!(*b, b'-');
        } else {
            assert!(b.is_ascii_digit() || (b'a'..=b'f').contains(b));
        }
    }
    assert_eq!(u[14], b'4');
}

#[test]
fn parse_permuted_fields_agree() {
    let c1 = ConectionSettings::parse("S:net;T:WPA;P:pw").unwrap();
    let c2 = ConectionSettings::parse("T:WPA;P:pw;S:net;;").unwrap();
    assert_eq!(c1.wifi.ssid, c2.wifi.ssid);
    assert_eq!(c1.connection.id, c2.connection.id);
    assert_eq!(c1.security.psk, c2.security.psk);
}

#[test]
fn parse_assigns_fresh_uuid() {
    let c1 = ConectionSettings::parse("S:net;P:pw").unwrap();
    let c2 = ConectionSettings::parse("S:net;P:pw").unwrap();
    assert_eq!(c1.connection.uuid.len(), 36);
    assert_eq!(c2.connection.uuid.len(), 36);
    assert_ne!(c1.connection.uuid, c2.connection.uuid);
    assert_eq!(c1.wifi.ssid, c2.wifi.ssid);
    assert_eq!(c1.connection.id, c2.connection.id);
    assert_eq!(c1.security.psk, c2.security.psk);
}

#[test]
fn parse_batch_skips_failed_item() {
    let items = vec![
        String::from("WIFI:S:one;P:pw1;;"),
        String::from("WIFI:T:WPA;H:false;;"),
        String::from("WIFI:S:three;P:pw3;;"),
    ];
    let results = ConectionSettings::parse_batch(&items);
    assert_eq!(results.len(), 3);
    assert_eq!(results[0].as_ref().unwrap().connection.id, "one");
    assert_eq!(*results[1].as_ref().unwrap_err(), ParseError("SSID not found"));
    assert_eq!(results[2].as_ref().unwrap().connection.id, "three");
}

#[test]
fn error_wraps_parse_error() {
    let e = Error::from(ParseError("SSID not found"));
    assert_eq!(e, Error::ParseError(ParseError("SSID not found")));
}

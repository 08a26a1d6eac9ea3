use wifi_qr::wire::{from_sections, WireValue};
use wifi_qr::ConectionSettings;

#[test]
fn wire_sections_have_schema_names() {
    let c = ConectionSettings::parse("WIFI:S:net;P:password;;").unwrap();
    let sections = c.to_sections();
    let names: Vec<&str> = sections.iter().map(|s| s.name.as_str()).collect();
    assert_eq!(
        names,
        vec!["connection", "802-11-wireless", "802-11-wireless-security", "ipv4", "ipv6"]
    );
}

#[test]
fn wire_round_trip_preserves_fields() {
    let c = ConectionSettings::parse("WIFI:S:net;P:password;;").unwrap();
    let sections = c.to_sections();
    let c2 = from_sections(&sections).unwrap();
    assert_eq!(c2.connection.kind, c.connection.kind);
    assert_eq!(c2.connection.uuid, c.connection.uuid);
    assert_eq!(c2.connection.id, c.connection.id);
    assert_eq!(c2.wifi.ssid, c.wifi.ssid);
    assert_eq!(c2.wifi.mode, c.wifi.mode);
    assert_eq!(c2.security.key_mgmt, c.security.key_mgmt);
    assert_eq!(c2.security.auth_alg, c.security.auth_alg);
    assert_eq!(c2.security.psk, c.security.psk);
    assert_eq!(c2.ipv4.method, c.ipv4.method);
    assert_eq!(c2.ipv6.method, c.ipv6.method);
}

#[test]
fn wire_ssid_entry_holds_raw_bytes() {
    let c = ConectionSettings::parse("WIFI:S:net;P:password;;").unwrap();
    let sections = c.to_sections();
    let wifi = &sections[1];
    assert_eq!(wifi.entries[0].key, "ssid");
    match &wifi.entries[0].value {
        WireValue::Data(d) => assert_eq!(&d[..], "net".as_bytes()),
        WireValue::Text(_) => panic!("ssid must be carried as bytes"),
    }
}

#[test]
fn wire_decode_missing_section_fails() {
    let c = ConectionSettings::parse("WIFI:S:net;P:password;;").unwrap();
    let mut sections = c.to_sections();
    sections.pop();
    assert!(from_sections(&sections).is_none());
}

#[test]
fn wire_decode_wrong_value_type_fails() {
    let c = ConectionSettings::parse("WIFI:S:net;P:password;;").unwrap();
    let mut sections = c.to_sections();
    sections[3].entries[0].value = WireValue::Data(vec![1, 2, 3]);
    assert!(from_sections(&sections).is_none());
}

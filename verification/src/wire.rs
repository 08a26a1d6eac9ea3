//! The wire schema of a connection profile.
//!
//! The management service takes a profile as named sections — `connection`,
//! `802-11-wireless`, `802-11-wireless-security`, `ipv4`, `ipv6` — each a
//! mapping of string keys to typed values. This grouping must be kept
//! exactly; encoding and decoding it are proved to round-trip.

use crate::profile::{C, ConectionSettings, Ipv4, Ipv6, Security, WiFi};
use vstd::prelude::*;

verus! {

/// A typed value of the wire schema: text, or raw bytes (the SSID).
#[derive(Debug)]
pub enum WireValue {
    Text(String),
    Data(Vec<u8>),
}

/// One key of a section.
#[derive(Debug)]
pub struct WireEntry {
    pub key: String,
    pub value: WireValue,
}

/// One named section: a mapping of string keys to typed values.
#[derive(Debug)]
pub struct WireSection {
    pub name: String,
    pub entries: Vec<WireEntry>,
}

/// The first section called `name`, if any.
pub open spec fn section_named(s: Seq<WireSection>, name: Seq<char>) -> Option<WireSection>
    decreases s.len(),
{
    if s.len() == 0 {
        None
    } else if s[0].name@ == name {
        Some(s[0])
    } else {
        section_named(s.drop_first(), name)
    }
}

/// The value of the first entry under `key`, if any.
pub open spec fn entry_keyed(e: Seq<WireEntry>, key: Seq<char>) -> Option<WireValue>
    decreases e.len(),
{
    if e.len() == 0 {
        None
    } else if e[0].key@ == key {
        Some(e[0].value)
    } else {
        entry_keyed(e.drop_first(), key)
    }
}

/// Section `name` holds text `v` under `key`.
pub open spec fn text_entry(s: Seq<WireSection>, name: Seq<char>, key: Seq<char>, v: Seq<char>) -> bool {
    section_named(s, name) matches Some(sec) && (entry_keyed(sec.entries@, key) matches Some(w)
        && w matches WireValue::Text(t) && t@ == v)
}

/// Section `name` holds bytes `v` under `key`.
pub open spec fn data_entry(s: Seq<WireSection>, name: Seq<char>, key: Seq<char>, v: Seq<u8>) -> bool {
    section_named(s, name) matches Some(sec) && (entry_keyed(sec.entries@, key) matches Some(w)
        && w matches WireValue::Data(d) && d@ == v)
}

/// One entry holds text `v` under `key`.
pub open spec fn entry_is_text(e: WireEntry, key: Seq<char>, v: Seq<char>) -> bool {
    e.key@ == key && (e.value matches WireValue::Text(t) && t@ == v)
}

/// One entry holds bytes `v` under `key`.
pub open spec fn entry_is_data(e: WireEntry, key: Seq<char>, v: Seq<u8>) -> bool {
    e.key@ == key && (e.value matches WireValue::Data(d) && d@ == v)
}

/// The encoded form of a profile: the five sections in the service's order,
/// each holding exactly the profile's fields under the schema's keys.
pub open spec fn wire_sections_match(c: ConectionSettings, s: Seq<WireSection>) -> bool {
    &&& s.len() == 5
    &&& s[0].name@ == "connection"@
    &&& s[0].entries@.len() == 3
    &&& entry_is_text(s[0].entries@[0], "type"@, c.connection.kind@)
    &&& entry_is_text(s[0].entries@[1], "uuid"@, c.connection.uuid@)
    &&& entry_is_text(s[0].entries@[2], "id"@, c.connection.id@)
    &&& s[1].name@ == "802-11-wireless"@
    &&& s[1].entries@.len() == 2
    &&& entry_is_data(s[1].entries@[0], "ssid"@, c.wifi.ssid@)
    &&& entry_is_text(s[1].entries@[1], "mode"@, c.wifi.mode@)
    &&& s[2].name@ == "802-11-wireless-security"@
    &&& s[2].entries@.len() == 3
    &&& entry_is_text(s[2].entries@[0], "key-mgmt"@, c.security.key_mgmt@)
    &&& entry_is_text(s[2].entries@[1], "auth-alg"@, c.security.auth_alg@)
    &&& entry_is_text(s[2].entries@[2], "psk"@, c.security.psk@)
    &&& s[3].name@ == "ipv4"@
    &&& s[3].entries@.len() == 1
    &&& entry_is_text(s[3].entries@[0], "method"@, c.ipv4.method@)
    &&& s[4].name@ == "ipv6"@
    &&& s[4].entries@.len() == 1
    &&& entry_is_text(s[4].entries@[0], "method"@, c.ipv6.method@)
}

/// Every section and entry of the schema is present, with the right type
/// of value.
pub open spec fn wire_complete(s: Seq<WireSection>) -> bool {
    &&& (section_named(s, "connection"@) matches Some(sec) && {
        &&& entry_keyed(sec.entries@, "type"@) matches Some(w) && w is Text
        &&& entry_keyed(sec.entries@, "uuid"@) matches Some(w) && w is Text
        &&& entry_keyed(sec.entries@, "id"@) matches Some(w) && w is Text
    })
    &&& (section_named(s, "802-11-wireless"@) matches Some(sec) && {
        &&& entry_keyed(sec.entries@, "ssid"@) matches Some(w) && w is Data
        &&& entry_keyed(sec.entries@, "mode"@) matches Some(w) && w is Text
    })
    &&& (section_named(s, "802-11-wireless-security"@) matches Some(sec) && {
        &&& entry_keyed(sec.entries@, "key-mgmt"@) matches Some(w) && w is Text
        &&& entry_keyed(sec.entries@, "auth-alg"@) matches Some(w) && w is Text
        &&& entry_keyed(sec.entries@, "psk"@) matches Some(w) && w is Text
    })
    &&& (section_named(s, "ipv4"@) matches Some(sec) && (entry_keyed(sec.entries@, "method"@)
        matches Some(w) && w is Text))
    &&& (section_named(s, "ipv6"@) matches Some(sec) && (entry_keyed(sec.entries@, "method"@)
        matches Some(w) && w is Text))
}

/// The sections bind every profile field of `c` under the schema's keys.
pub open spec fn wire_decodes_to(s: Seq<WireSection>, c: ConectionSettings) -> bool {
    &&& text_entry(s, "connection"@, "type"@, c.connection.kind@)
    &&& text_entry(s, "connection"@, "uuid"@, c.connection.uuid@)
    &&& text_entry(s, "connection"@, "id"@, c.connection.id@)
    &&& data_entry(s, "802-11-wireless"@, "ssid"@, c.wifi.ssid@)
    &&& text_entry(s, "802-11-wireless"@, "mode"@, c.wifi.mode@)
    &&& text_entry(s, "802-11-wireless-security"@, "key-mgmt"@, c.security.key_mgmt@)
    &&& text_entry(s, "802-11-wireless-security"@, "auth-alg"@, c.security.auth_alg@)
    &&& text_entry(s, "802-11-wireless-security"@, "psk"@, c.security.psk@)
    &&& text_entry(s, "ipv4"@, "method"@, c.ipv4.method@)
    &&& text_entry(s, "ipv6"@, "method"@, c.ipv6.method@)
}

/// Copy a byte vector, element by element.
fn copy_bytes(v: &Vec<u8>) -> (r: Vec<u8>)
    ensures
        r@ == v@,
{
    let n = v.len();
    let mut out: Vec<u8> = Vec::new();
    let mut i: usize = 0;
    while i < n
        invariant
            n == v@.len(),
            i <= n,
            out@ == v@.subrange(0, i as int),
        decreases n - i,
    {
        out.push(v[i]);
        proof {
            assert(out@ =~= v@.subrange(0, i as int + 1));
        }
        i = i + 1;
    }
    proof {
        assert(out@ =~= v@);
    }
    out
}

fn text_of(key: &str, v: &String) -> (r: WireEntry)
    ensures
        entry_is_text(r, key@, v@),
{
    WireEntry { key: String::from_str(key), value: WireValue::Text(v.clone()) }
}

impl ConectionSettings {
    /// Encode the profile into the wire schema: the named sections, each a
    /// mapping of keys to typed values, grouped exactly as the service
    /// expects them.
    pub fn to_sections(&self) -> (r: Vec<WireSection>)
        ensures
            wire_sections_match(*self, r@),
    {
        let mut conn: Vec<WireEntry> = Vec::new();
        conn.push(text_of("type", &self.connection.kind));
        conn.push(text_of("uuid", &self.connection.uuid));
        conn.push(text_of("id", &self.connection.id));
        let mut wifi: Vec<WireEntry> = Vec::new();
        wifi.push(
            WireEntry {
                key: String::from_str("ssid"),
                value: WireValue::Data(copy_bytes(&self.wifi.ssid)),
            },
        );
        wifi.push(text_of("mode", &self.wifi.mode));
        let mut sec: Vec<WireEntry> = Vec::new();
        sec.push(text_of("key-mgmt", &self.security.key_mgmt));
        sec.push(text_of("auth-alg", &self.security.auth_alg));
        sec.push(text_of("psk", &self.security.psk));
        let mut v4: Vec<WireEntry> = Vec::new();
        v4.push(text_of("method", &self.ipv4.method));
        let mut v6: Vec<WireEntry> = Vec::new();
        v6.push(text_of("method", &self.ipv6.method));
        let mut out: Vec<WireSection> = Vec::new();
        out.push(WireSection { name: String::from_str("connection"), entries: conn });
        out.push(WireSection { name: String::from_str("802-11-wireless"), entries: wifi });
        out.push(
            WireSection { name: String::from_str("802-11-wireless-security"), entries: sec },
        );
        out.push(WireSection { name: String::from_str("ipv4"), entries: v4 });
        out.push(WireSection { name: String::from_str("ipv6"), entries: v6 });
        out
    }
}

/// The first section called `name`, searched front to back.
fn find_section<'a>(sections: &'a Vec<WireSection>, name: &String) -> (r: Option<&'a WireSection>)
    ensures
        match r {
            Some(sec) => section_named(sections@, name@) == Some(*sec),
            None => section_named(sections@, name@) is None,
        },
{
    let n = sections.len();
    let mut i: usize = 0;
    proof {
        assert(sections@.skip(0) =~= sections@);
    }
    while i < n
        invariant
            n == sections@.len(),
            i <= n,
            section_named(sections@, name@) == section_named(
                sections@.skip(i as int),
                name@,
            ),
        decreases n - i,
    {
        if sections[i].name == *name {
            proof {
                assert(sections@.skip(i as int)[0] == sections@[i as int]);
            }
            return Some(&sections[i]);
        }
        proof {
            assert(sections@.skip(i as int)[0] == sections@[i as int]);
            assert(sections@.skip(i as int).drop_first() =~= sections@.skip(i as int + 1));
        }
        i = i + 1;
    }
    proof {
        assert(sections@.skip(n as int) =~= Seq::<WireSection>::empty());
    }
    None
}

/// The value of the first entry under `key`, searched front to back.
fn find_entry<'a>(entries: &'a Vec<WireEntry>, key: &String) -> (r: Option<&'a WireValue>)
    ensures
        match r {
            Some(w) => entry_keyed(entries@, key@) == Some(*w),
            None => entry_keyed(entries@, key@) is None,
        },
{
    let n = entries.len();
    let mut i: usize = 0;
    proof {
        assert(entries@.skip(0) =~= entries@);
    }
    while i < n
        invariant
            n == entries@.len(),
            i <= n,
            entry_keyed(entries@, key@) == entry_keyed(entries@.skip(i as int), key@),
        decreases n - i,
    {
        if entries[i].key == *key {
            proof {
                assert(entries@.skip(i as int)[0] == entries@[i as int]);
            }
            return Some(&entries[i].value);
        }
        proof {
            assert(entries@.skip(i as int)[0] == entries@[i as int]);
            assert(entries@.skip(i as int).drop_first() =~= entries@.skip(i as int + 1));
        }
        i = i + 1;
    }
    proof {
        assert(entries@.skip(n as int) =~= Seq::<WireEntry>::empty());
    }
    None
}

/// The text under `key` in the section called `name`, if present as text.
fn find_text(sections: &Vec<WireSection>, name: &str, key: &str) -> (r: Option<String>)
    ensures
        match r {
            Some(t) => text_entry(sections@, name@, key@, t@),
            None => !(section_named(sections@, name@) matches Some(sec) && (entry_keyed(
                sec.entries@,
                key@,
            ) matches Some(w) && w is Text)),
        },
{
    let name_s = String::from_str(name);
    let key_s = String::from_str(key);
    match find_section(sections, &name_s) {
        Some(sec) => match find_entry(&sec.entries, &key_s) {
            Some(WireValue::Text(t)) => Some(t.clone()),
            _ => None,
        },
        None => None,
    }
}

/// The bytes under `key` in the section called `name`, if present as data.
fn find_data(sections: &Vec<WireSection>, name: &str, key: &str) -> (r: Option<Vec<u8>>)
    ensures
        match r {
            Some(d) => data_entry(sections@, name@, key@, d@),
            None => !(section_named(sections@, name@) matches Some(sec) && (entry_keyed(
                sec.entries@,
                key@,
            ) matches Some(w) && w is Data)),
        },
{
    let name_s = String::from_str(name);
    let key_s = String::from_str(key);
    match find_section(sections, &name_s) {
        Some(sec) => match find_entry(&sec.entries, &key_s) {
            Some(WireValue::Data(d)) => Some(copy_bytes(d)),
            _ => None,
        },
        None => None,
    }
}

/// The encoded sections decode, and they decode to the profile that was
/// encoded.
pub proof fn lemma_wire_encode_decodes(c: ConectionSettings, s: Seq<WireSection>)
    requires
        wire_sections_match(c, s),
    ensures
        wire_complete(s),
        wire_decodes_to(s, c),
{
    reveal_strlit("connection");
    reveal_strlit("802-11-wireless");
    reveal_strlit("802-11-wireless-security");
    reveal_strlit("ipv4");
    reveal_strlit("ipv6");
    reveal_strlit("type");
    reveal_strlit("uuid");
    reveal_strlit("id");
    reveal_strlit("ssid");
    reveal_strlit("mode");
    reveal_strlit("key-mgmt");
    reveal_strlit("auth-alg");
    reveal_strlit("psk");
    reveal_strlit("method");
    assert("ipv4"@ != "ipv6"@) by {
        assert("ipv4"@[3] == '4');
        assert("ipv6"@[3] == '6');
    }
    assert("connection"@.len() == 10);
    assert("802-11-wireless"@.len() == 15);
    assert("802-11-wireless-security"@.len() == 24);
    assert("ipv4"@.len() == 4);
    assert("ipv6"@.len() == 4);
    assert("connection"@[0] == 'c' && "ipv4"@[0] == 'i' && "ipv6"@[0] == 'i');
    assert("802-11-wireless"@[0] == '8' && "802-11-wireless-security"@[0] == '8');
    assert("type"@.len() == 4 && "uuid"@.len() == 4 && "id"@.len() == 2);
    assert("type"@[0] == 't' && "uuid"@[0] == 'u');
    assert("ssid"@[0] == 's' && "mode"@[0] == 'm');
    assert("key-mgmt"@.len() == 8 && "auth-alg"@.len() == 8 && "psk"@.len() == 3);
    assert("key-mgmt"@[0] == 'k' && "auth-alg"@[0] == 'a');

    let s1 = s.drop_first();
    let s2 = s1.drop_first();
    let s3 = s2.drop_first();
    let s4 = s3.drop_first();
    assert(s1[0] == s[1] && s1[1] == s[2] && s1[2] == s[3] && s1[3] == s[4]);
    assert(s2[0] == s[2] && s2[1] == s[3] && s2[2] == s[4]);
    assert(s3[0] == s[3] && s3[1] == s[4]);
    assert(s4[0] == s[4]);

    assert(section_named(s, "connection"@) == Some(s[0]));
    assert(section_named(s1, "802-11-wireless"@) == Some(s[1]));
    assert(section_named(s, "802-11-wireless"@) == Some(s[1]));
    assert(section_named(s2, "802-11-wireless-security"@) == Some(s[2]));
    assert(section_named(s1, "802-11-wireless-security"@) == Some(s[2]));
    assert(section_named(s, "802-11-wireless-security"@) == Some(s[2]));
    assert(section_named(s3, "ipv4"@) == Some(s[3]));
    assert(section_named(s2, "ipv4"@) == Some(s[3]));
    assert(section_named(s1, "ipv4"@) == Some(s[3]));
    assert(section_named(s, "ipv4"@) == Some(s[3]));
    assert(section_named(s4, "ipv6"@) == Some(s[4]));
    assert(section_named(s3, "ipv6"@) == Some(s[4]));
    assert(section_named(s2, "ipv6"@) == Some(s[4]));
    assert(section_named(s1, "ipv6"@) == Some(s[4]));
    assert(section_named(s, "ipv6"@) == Some(s[4]));

    let ce = s[0].entries@;
    let ce1 = ce.drop_first();
    let ce2 = ce1.drop_first();
    assert(ce1[0] == ce[1] && ce1[1] == ce[2]);
    assert(ce2[0] == ce[2]);
    assert(entry_keyed(ce, "type"@) == Some(ce[0].value));
    assert(entry_keyed(ce1, "uuid"@) == Some(ce[1].value));
    assert(entry_keyed(ce, "uuid"@) == Some(ce[1].value));
    assert(entry_keyed(ce2, "id"@) == Some(ce[2].value));
    assert(entry_keyed(ce1, "id"@) == Some(ce[2].value));
    assert(entry_keyed(ce, "id"@) == Some(ce[2].value));

    let we = s[1].entries@;
    let we1 = we.drop_first();
    assert(we1[0] == we[1]);
    assert(entry_keyed(we, "ssid"@) == Some(we[0].value));
    assert(entry_keyed(we1, "mode"@) == Some(we[1].value));
    assert(entry_keyed(we, "mode"@) == Some(we[1].value));

    let se = s[2].entries@;
    let se1 = se.drop_first();
    let se2 = se1.drop_first();
    assert(se1[0] == se[1] && se1[1] == se[2]);
    assert(se2[0] == se[2]);
    assert(entry_keyed(se, "key-mgmt"@) == Some(se[0].value));
    assert(entry_keyed(se1, "auth-alg"@) == Some(se[1].value));
    assert(entry_keyed(se, "auth-alg"@) == Some(se[1].value));
    assert(entry_keyed(se2, "psk"@) == Some(se[2].value));
    assert(entry_keyed(se1, "psk"@) == Some(se[2].value));
    assert(entry_keyed(se, "psk"@) == Some(se[2].value));

    assert(entry_keyed(s[3].entries@, "method"@) == Some(s[3].entries@[0].value));
    assert(entry_keyed(s[4].entries@, "method"@) == Some(s[4].entries@[0].value));
}

/// Encoding a profile to the wire schema and decoding the sections back
/// yields the original field values, the unique identifier included; all
/// five named sections are present.
pub proof fn lemma_wire_round_trip(
    c: ConectionSettings,
    s: Seq<WireSection>,
    c2: ConectionSettings,
)
    requires
        wire_sections_match(c, s),
        wire_decodes_to(s, c2),
    ensures
        c2.connection.kind@ == c.connection.kind@,
        c2.connection.uuid@ == c.connection.uuid@,
        c2.connection.id@ == c.connection.id@,
        c2.wifi.ssid@ == c.wifi.ssid@,
        c2.wifi.mode@ == c.wifi.mode@,
        c2.security.key_mgmt@ == c.security.key_mgmt@,
        c2.security.auth_alg@ == c.security.auth_alg@,
        c2.security.psk@ == c.security.psk@,
        c2.ipv4.method@ == c.ipv4.method@,
        c2.ipv6.method@ == c.ipv6.method@,
{
    lemma_wire_encode_decodes(c, s);
}

/// Decode wire sections back into a profile. Succeeds exactly when every
/// section and entry of the schema is present with the right type, and then
/// returns the bound field values unchanged.
pub fn from_sections(sections: &Vec<WireSection>) -> (r: Option<ConectionSettings>)
    ensures
        r matches Some(c) ==> wire_decodes_to(sections@, c),
        r is Some <==> wire_complete(sections@),
{
    let kind = match find_text(sections, "connection", "type") {
        Some(t) => t,
        None => {
            return None;
        },
    };
    let uuid = match find_text(sections, "connection", "uuid") {
        Some(t) => t,
        None => {
            return None;
        },
    };
    let id = match find_text(sections, "connection", "id") {
        Some(t) => t,
        None => {
            return None;
        },
    };
    let ssid = match find_data(sections, "802-11-wireless", "ssid") {
        Some(d) => d,
        None => {
            return None;
        },
    };
    let mode = match find_text(sections, "802-11-wireless", "mode") {
        Some(t) => t,
        None => {
            return None;
        },
    };
    let key_mgmt = match find_text(sections, "802-11-wireless-security", "key-mgmt") {
        Some(t) => t,
        None => {
            return None;
        },
    };
    let auth_alg = match find_text(sections, "802-11-wireless-security", "auth-alg") {
        Some(t) => t,
        None => {
            return None;
        },
    };
    let psk = match find_text(sections, "802-11-wireless-security", "psk") {
        Some(t) => t,
        None => {
            return None;
        },
    };
    let v4_method = match find_text(sections, "ipv4", "method") {
        Some(t) => t,
        None => {
            return None;
        },
    };
    let v6_method = match find_text(sections, "ipv6", "method") {
        Some(t) => t,
        None => {
            return None;
        },
    };
    Some(
        ConectionSettings {
            connection: C { kind, uuid, id },
            wifi: WiFi { ssid, mode },
            security: Security { key_mgmt, auth_alg, psk },
            ipv4: Ipv4 { method: v4_method },
            ipv6: Ipv6 { method: v6_method },
        },
    )
}

} // verus!

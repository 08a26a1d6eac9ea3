//! The connection profile: the typed representation of one WiFi
//! configuration, and the parser that builds it from a scanned QR payload.

use crate::errors::ParseError;
use crate::payload::{field_value, lookup_field, payload_body, payload_pairs, unique_keys};
use vstd::prelude::*;
use vstd::utf8::encode_utf8;

verus! {

/// The `connection` section of a profile.
#[derive(Debug)]
pub struct C {
    pub kind: String,
    pub uuid: String,
    pub id: String,
}

/// The `802-11-wireless` section: the SSID is kept as raw bytes, since WiFi
/// SSIDs are not guaranteed to be valid text.
#[derive(Debug)]
pub struct WiFi {
    pub ssid: Vec<u8>,
    pub mode: String,
}

/// The `802-11-wireless-security` section.
#[derive(Debug)]
pub struct Security {
    pub key_mgmt: String,
    pub auth_alg: String,
    pub psk: String,
}

/// The `ipv4` section.
#[derive(Debug)]
pub struct Ipv4 {
    pub method: String,
}

/// The `ipv6` section.
#[derive(Debug)]
pub struct Ipv6 {
    pub method: String,
}

/// A validated connection profile, ready to be submitted to the
/// network-management service.
#[derive(Debug)]
pub struct ConectionSettings {
    pub connection: C,
    pub wifi: WiFi,
    pub security: Security,
    pub ipv4: Ipv4,
    pub ipv6: Ipv6,
}

/// A lowercase hexadecimal digit.
pub open spec fn is_hex_digit(c: char) -> bool {
    ('0' <= c && c <= '9') || ('a' <= c && c <= 'f')
}

/// The hyphenated lowercase form of a version-4 UUID: 36 characters,
/// hyphens at the four fixed positions, hex digits everywhere else, and
/// the version nibble `4`.
pub open spec fn is_hyphenated_uuid_v4(s: Seq<char>) -> bool {
    &&& s.len() == 36
    &&& forall|i: int|
        0 <= i < 36 && (i == 8 || i == 13 || i == 18 || i == 23) ==> #[trigger] s[i] == '-'
    &&& forall|i: int|
        0 <= i < 36 && !(i == 8 || i == 13 || i == 18 || i == 23) ==> is_hex_digit(
            #[trigger] s[i],
        )
    &&& s[14] == '4'
}

/// Relies on `uuid::Uuid::new_v4` and its `Display` form: a freshly drawn
/// random identifier whose version nibble is forced to 4, rendered in the
/// hyphenated lowercase format — 36 characters, hyphens at the four fixed
/// positions, hex digits everywhere else. Nothing is promised of which
/// digits are drawn.
#[verifier::external_body]
fn new_uuid() -> (r: String)
    ensures
        is_hyphenated_uuid_v4(r@),
{
    uuid::Uuid::new_v4().to_string()
}

/// Every profile field that a successful parse of `s` determines; only the
/// freshly drawn unique identifier is left open (its length alone is fixed).
pub open spec fn parse_ok_matches(s: Seq<char>, c: ConectionSettings) -> bool {
    &&& field_value(s, "S"@) matches Some(ssid_v) && {
        &&& c.connection.id@ == ssid_v
        &&& c.wifi.ssid@ == encode_utf8(ssid_v)
    }
    &&& field_value(s, "P"@) matches Some(psk_v) && c.security.psk@ == psk_v
    &&& c.connection.kind@ == "802-11-wireless"@
    &&& is_hyphenated_uuid_v4(c.connection.uuid@)
    &&& c.wifi.mode@ == "infrastructure"@
    &&& c.security.key_mgmt@ == "wpa-psk"@
    &&& c.security.auth_alg@ == "open"@
    &&& c.ipv4.method@ == "auto"@
    &&& c.ipv6.method@ == "ignore"@
}

/// The payload binds a non-empty SSID value.
pub open spec fn ssid_bound(s: Seq<char>) -> bool {
    field_value(s, "S"@) matches Some(v) && v.len() > 0
}

/// The payload binds a non-empty passphrase value.
pub open spec fn psk_bound(s: Seq<char>) -> bool {
    field_value(s, "P"@) matches Some(v) && v.len() > 0
}

/// What `parse` returns on `s`: success exactly when both required fields
/// are bound to non-empty values, and the error naming the first field
/// that is absent or empty otherwise.
pub open spec fn parse_result_matches(s: Seq<char>, r: Result<ConectionSettings, ParseError>) -> bool {
    &&& (r matches Ok(c) ==> parse_ok_matches(s, c))
    &&& (r is Ok <==> ssid_bound(s) && psk_bound(s))
    &&& (!ssid_bound(s) ==> (r matches Err(e) && e.0@ == "SSID not found"@))
    &&& ((ssid_bound(s) && !psk_bound(s)) ==> (r matches Err(e) && e.0@
        == "Passphrase not found"@))
}

impl ConectionSettings {
    /// Parse one QR payload: strip an optional `WIFI:` prefix, read the
    /// fields, and build the profile from the required `S` (SSID) and `P`
    /// (passphrase) values, which must be non-empty; other keys are
    /// accepted and ignored.
    pub fn parse(s: &str) -> (r: Result<ConectionSettings, ParseError>)
        ensures
            parse_result_matches(s@, r),
    {
        let n = s.unicode_len();
        let has_prefix: bool = n >= 5 && s.get_char(0) == 'W' && s.get_char(1) == 'I'
            && s.get_char(2) == 'F' && s.get_char(3) == 'I' && s.get_char(4) == ':';
        let body: &str = if has_prefix {
            proof {
                reveal_strlit("WIFI:");
                assert(s@.subrange(0, 5) =~= "WIFI:"@);
            }
            s.substring_char(5, n)
        } else {
            proof {
                reveal_strlit("WIFI:");
                if s@.len() >= 5 && s@.subrange(0, 5) == "WIFI:"@ {
                    assert(s@.subrange(0, 5)[0] == 'W');
                    assert(s@.subrange(0, 5)[1] == 'I');
                    assert(s@.subrange(0, 5)[2] == 'F');
                    assert(s@.subrange(0, 5)[3] == 'I');
                    assert(s@.subrange(0, 5)[4] == ':');
                    assert(false);
                }
            }
            s
        };
        proof {
            assert(body@ == payload_body(s@));
            reveal_strlit("S");
            reveal_strlit("P");
            assert(seq!['S'] =~= "S"@);
            assert(seq!['P'] =~= "P"@);
        }
        let ssid: &str = match lookup_field(body, 'S') {
            Some(v) => v,
            None => {
                return Err(ParseError("SSID not found"));
            },
        };
        if ssid.is_empty() {
            return Err(ParseError("SSID not found"));
        }
        let psk: &str = match lookup_field(body, 'P') {
            Some(v) => v,
            None => {
                return Err(ParseError("Passphrase not found"));
            },
        };
        if psk.is_empty() {
            return Err(ParseError("Passphrase not found"));
        }
        let uuid_text = new_uuid();
        Ok(
            ConectionSettings {
                connection: C {
                    kind: String::from_str("802-11-wireless"),
                    uuid: uuid_text,
                    id: String::from_str(ssid),
                },
                wifi: WiFi { ssid: ssid.as_bytes_vec(), mode: String::from_str("infrastructure") },
                security: Security {
                    key_mgmt: String::from_str("wpa-psk"),
                    auth_alg: String::from_str("open"),
                    psk: String::from_str(psk),
                },
                ipv4: Ipv4 { method: String::from_str("auto") },
                ipv6: Ipv6 { method: String::from_str("ignore") },
            },
        )
    }

    /// Parse each scan result of a batch, in order. A failed item leaves its
    /// error in place and the later items are still parsed; only successful
    /// items yield a profile to submit to the service.
    pub fn parse_batch(items: &Vec<String>) -> (r: Vec<Result<ConectionSettings, ParseError>>)
        ensures
            r@.len() == items@.len(),
            forall|i: int|
                0 <= i < items@.len() ==> parse_result_matches(items@[i]@, #[trigger] r@[i]),
    {
        let mut out: Vec<Result<ConectionSettings, ParseError>> = Vec::new();
        let n = items.len();
        let mut idx: usize = 0;
        while idx < n
            invariant
                n == items@.len(),
                idx <= n,
                out@.len() == idx,
                forall|i: int|
                    0 <= i < idx as int ==> parse_result_matches(items@[i]@, #[trigger] out@[i]),
            decreases n - idx,
        {
            let res = ConectionSettings::parse(items[idx].as_str());
            out.push(res);
            idx = idx + 1;
        }
        out
    }

    /// The unique identifier assigned when the profile was parsed.
    pub fn uuid(&self) -> (r: &str)
        ensures
            r@ == self.connection.uuid@,
    {
        self.connection.uuid.as_str()
    }

    /// The D-Bus type signature of the wire form: an array of named
    /// sections, each a dict of string keys to variant values.
    pub fn signature() -> (r: &'static str)
        ensures
            r@ == "a{sa{sv}}"@,
    {
        "a{sa{sv}}"
    }
}

/// Parsing the same text twice succeeds or fails alike, and two successes
/// agree on every profile field but the freshly assigned unique identifier.
pub proof fn lemma_parse_deterministic_modulo_uuid(
    t: Seq<char>,
    r1: Result<ConectionSettings, ParseError>,
    r2: Result<ConectionSettings, ParseError>,
)
    requires
        parse_result_matches(t, r1),
        parse_result_matches(t, r2),
    ensures
        r1 is Ok <==> r2 is Ok,
        r1 matches Ok(c1) ==> (r2 matches Ok(c2) ==> {
            &&& c1.connection.kind@ == c2.connection.kind@
            &&& c1.connection.id@ == c2.connection.id@
            &&& c1.wifi.ssid@ == c2.wifi.ssid@
            &&& c1.wifi.mode@ == c2.wifi.mode@
            &&& c1.security.key_mgmt@ == c2.security.key_mgmt@
            &&& c1.security.auth_alg@ == c2.security.auth_alg@
            &&& c1.security.psk@ == c2.security.psk@
            &&& c1.ipv4.method@ == c2.ipv4.method@
            &&& c1.ipv6.method@ == c2.ipv6.method@
        }),
{
}

/// A well-formed payload — a non-empty `S` field and a non-empty `P` field
/// in either order, an optional scheme prefix, an optional trailing `;;` —
/// parses into a profile whose SSID bytes encode the SSID text and whose
/// passphrase is the passphrase text.
pub proof fn lemma_parse_well_formed(
    ssid: Seq<char>,
    psk: Seq<char>,
    prefix: Seq<char>,
    core: Seq<char>,
    tail: Seq<char>,
    r: Result<ConectionSettings, ParseError>,
)
    requires
        ssid.len() > 0,
        psk.len() > 0,
        forall|j: int| 0 <= j < ssid.len() ==> ssid[j] != ';',
        forall|j: int| 0 <= j < psk.len() ==> psk[j] != ';',
        prefix == Seq::<char>::empty() || prefix == "WIFI:"@,
        tail == Seq::<char>::empty() || tail == ";;"@,
        core == "S:"@ + ssid + ";P:"@ + psk || core == "P:"@ + psk + ";S:"@ + ssid,
        parse_result_matches(prefix + core + tail, r),
    ensures
        r is Ok,
        r matches Ok(c) ==> {
            &&& c.wifi.ssid@ == encode_utf8(ssid)
            &&& c.connection.id@ == ssid
            &&& c.security.psk@ == psk
        },
{
    crate::payload::lemma_well_formed_payload(ssid, psk, prefix, core, tail);
}

/// Reordering a payload's fields — and appending trailing separators,
/// which add no pair — leaves the parse outcome the same when no key
/// repeats: the same error, or profiles equal in every field but the
/// fresh identifier.
pub proof fn lemma_parse_permuted(
    s1: Seq<char>,
    s2: Seq<char>,
    r1: Result<ConectionSettings, ParseError>,
    r2: Result<ConectionSettings, ParseError>,
)
    requires
        payload_pairs(s1).to_multiset() == payload_pairs(s2).to_multiset(),
        unique_keys(payload_pairs(s1)),
        parse_result_matches(s1, r1),
        parse_result_matches(s2, r2),
    ensures
        r1 is Ok <==> r2 is Ok,
        r1 matches Err(e1) ==> (r2 matches Err(e2) && e1.0@ == e2.0@),
        r1 matches Ok(c1) ==> (r2 matches Ok(c2) ==> {
            &&& c1.connection.kind@ == c2.connection.kind@
            &&& c1.connection.id@ == c2.connection.id@
            &&& c1.wifi.ssid@ == c2.wifi.ssid@
            &&& c1.wifi.mode@ == c2.wifi.mode@
            &&& c1.security.key_mgmt@ == c2.security.key_mgmt@
            &&& c1.security.auth_alg@ == c2.security.auth_alg@
            &&& c1.security.psk@ == c2.security.psk@
            &&& c1.ipv4.method@ == c2.ipv4.method@
            &&& c1.ipv6.method@ == c2.ipv6.method@
        }),
{
    crate::payload::lemma_field_value_permuted(s1, s2, "S"@);
    crate::payload::lemma_field_value_permuted(s1, s2, "P"@);
}

} // verus!

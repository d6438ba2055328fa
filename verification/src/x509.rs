//! Presentation of X.509 certificates: OID names, key-usage and
//! extended-key-usage names, subject alternative names, validity status,
//! and the JSON summary of a certificate. Decoding the DER is done in
//! `cert_der`; the facts it yields come in as `CertFacts`.

use vstd::prelude::*;
use crate::codecs::{
    blake3_digest, blake3_hash, hex_char, hex_digit, hex_encode, hex_text, rfc3339_of_unix, sha256,
    sha256_digest, unix_to_rfc3339,
};
use crate::json::{JsonModel, JsonValue, models_of, push_entry, push_item};
use crate::text::{concat2, copy_string, decimal, str_eq, u64_to_decimal};

verus! {

/// Names of well-known OIDs: signature and key algorithms, extended key
/// usages, standard extensions, and the post-quantum extensions.
pub open spec fn oid_table() -> Seq<(Seq<char>, Seq<char>)> {
    seq![
        ("1.2.840.113549.1.1.1"@, "RSA"@),
        ("1.2.840.113549.1.1.5"@, "RSA-SHA1"@),
        ("1.2.840.113549.1.1.11"@, "RSA-SHA256"@),
        ("1.2.840.113549.1.1.12"@, "RSA-SHA384"@),
        ("1.2.840.113549.1.1.13"@, "RSA-SHA512"@),
        ("1.2.840.10045.2.1"@, "EC-PublicKey"@),
        ("1.2.840.10045.4.3.2"@, "ECDSA-SHA256"@),
        ("1.2.840.10045.4.3.3"@, "ECDSA-SHA384"@),
        ("1.2.840.10045.4.3.4"@, "ECDSA-SHA512"@),
        ("1.3.101.112"@, "Ed25519"@),
        ("1.3.101.113"@, "Ed448"@),
        ("2.5.29.37.0"@, "any_extended_key_usage"@),
        ("1.3.6.1.5.5.7.3.1"@, "server_auth"@),
        ("1.3.6.1.5.5.7.3.2"@, "client_auth"@),
        ("1.3.6.1.5.5.7.3.3"@, "code_signing"@),
        ("1.3.6.1.5.5.7.3.4"@, "email_protection"@),
        ("1.3.6.1.5.5.7.3.8"@, "time_stamping"@),
        ("1.3.6.1.5.5.7.3.9"@, "ocsp_signing"@),
        ("2.5.29.14"@, "subject_key_identifier"@),
        ("2.5.29.15"@, "key_usage"@),
        ("2.5.29.17"@, "subject_alt_name"@),
        ("2.5.29.18"@, "issuer_alt_name"@),
        ("2.5.29.19"@, "basic_constraints"@),
        ("2.5.29.20"@, "crl_number"@),
        ("2.5.29.21"@, "reason_code"@),
        ("2.5.29.27"@, "delta_crl_indicator"@),
        ("2.5.29.28"@, "issuing_distribution_point"@),
        ("2.5.29.29"@, "certificate_issuer"@),
        ("2.5.29.30"@, "name_constraints"@),
        ("2.5.29.31"@, "crl_distribution_points"@),
        ("2.5.29.32"@, "certificate_policies"@),
        ("2.5.29.33"@, "policy_mappings"@),
        ("2.5.29.35"@, "authority_key_identifier"@),
        ("2.5.29.36"@, "policy_constraints"@),
        ("2.5.29.37"@, "extended_key_usage"@),
        ("2.5.29.46"@, "freshest_crl"@),
        ("2.5.29.54"@, "inhibit_any_policy"@),
        ("1.3.6.1.5.5.7.1.1"@, "authority_info_access"@),
        ("1.3.6.1.5.5.7.1.11"@, "subject_info_access"@),
        ("1.3.6.1.4.1.99999.1"@, "FALCON-1024"@),
        ("1.3.6.1.4.1.99999.2"@, "Kyber-1024"@),
    ]
}

fn oid_entries() -> (r: Vec<(&'static str, &'static str)>)
    ensures
        r@.map_values(|p: (&'static str, &'static str)| (p.0@, p.1@)) == oid_table(),
{
    let v = vec![
        ("1.2.840.113549.1.1.1", "RSA"),
        ("1.2.840.113549.1.1.5", "RSA-SHA1"),
        ("1.2.840.113549.1.1.11", "RSA-SHA256"),
        ("1.2.840.113549.1.1.12", "RSA-SHA384"),
        ("1.2.840.113549.1.1.13", "RSA-SHA512"),
        ("1.2.840.10045.2.1", "EC-PublicKey"),
        ("1.2.840.10045.4.3.2", "ECDSA-SHA256"),
        ("1.2.840.10045.4.3.3", "ECDSA-SHA384"),
        ("1.2.840.10045.4.3.4", "ECDSA-SHA512"),
        ("1.3.101.112", "Ed25519"),
        ("1.3.101.113", "Ed448"),
        ("2.5.29.37.0", "any_extended_key_usage"),
        ("1.3.6.1.5.5.7.3.1", "server_auth"),
        ("1.3.6.1.5.5.7.3.2", "client_auth"),
        ("1.3.6.1.5.5.7.3.3", "code_signing"),
        ("1.3.6.1.5.5.7.3.4", "email_protection"),
        ("1.3.6.1.5.5.7.3.8", "time_stamping"),
        ("1.3.6.1.5.5.7.3.9", "ocsp_signing"),
        ("2.5.29.14", "subject_key_identifier"),
        ("2.5.29.15", "key_usage"),
        ("2.5.29.17", "subject_alt_name"),
        ("2.5.29.18", "issuer_alt_name"),
        ("2.5.29.19", "basic_constraints"),
        ("2.5.29.20", "crl_number"),
        ("2.5.29.21", "reason_code"),
        ("2.5.29.27", "delta_crl_indicator"),
        ("2.5.29.28", "issuing_distribution_point"),
        ("2.5.29.29", "certificate_issuer"),
        ("2.5.29.30", "name_constraints"),
        ("2.5.29.31", "crl_distribution_points"),
        ("2.5.29.32", "certificate_policies"),
        ("2.5.29.33", "policy_mappings"),
        ("2.5.29.35", "authority_key_identifier"),
        ("2.5.29.36", "policy_constraints"),
        ("2.5.29.37", "extended_key_usage"),
        ("2.5.29.46", "freshest_crl"),
        ("2.5.29.54", "inhibit_any_policy"),
        ("1.3.6.1.5.5.7.1.1", "authority_info_access"),
        ("1.3.6.1.5.5.7.1.11", "subject_info_access"),
        ("1.3.6.1.4.1.99999.1", "FALCON-1024"),
        ("1.3.6.1.4.1.99999.2", "Kyber-1024"),
    ];
    assert(v@.map_values(|p: (&'static str, &'static str)| (p.0@, p.1@)) =~= oid_table());
    v
}

/// The name of `oid` in the table: the name of its first entry.
pub open spec fn oid_name(oid: Seq<char>) -> Option<Seq<char>> {
    if exists|i: int| 0 <= i < oid_table().len() && (#[trigger] oid_table()[i]).0 == oid {
        let i = choose|i: int|
            0 <= i < oid_table().len() && (#[trigger] oid_table()[i]).0 == oid && forall|j: int|
                0 <= j < i ==> (#[trigger] oid_table()[j]).0 != oid;
        Some(oid_table()[i].1)
    } else {
        None
    }
}

/// The human-readable name of an OID, when it is a well-known one.
pub fn oid_to_name(oid: &str) -> (r: Option<&'static str>)
    ensures
        match r {
            Some(s) => oid_name(oid@) == Some(s@),
            None => oid_name(oid@) is None,
        },
{
    let table = oid_entries();
    let ghost t = oid_table();
    let mut i: usize = 0;
    while i < table.len()
        invariant
            i <= table@.len(),
            t == oid_table(),
            table@.map_values(|p: (&'static str, &'static str)| (p.0@, p.1@)) == t,
            forall|j: int| 0 <= j < i ==> (#[trigger] t[j]).0 != oid@,
        decreases table@.len() - i,
    {
        assert(t[i as int] == (table@[i as int].0@, table@[i as int].1@));
        if str_eq(table[i].0, oid) {
            proof {
                let k = choose|k: int|
                    0 <= k < t.len() && (#[trigger] t[k]).0 == oid@ && forall|j: int|
                        0 <= j < k ==> (#[trigger] t[j]).0 != oid@;
                assert(0 <= i < t.len() && t[i as int].0 == oid@ && forall|j: int|
                    0 <= j < i ==> (#[trigger] t[j]).0 != oid@);
                if k < i {
                } else if k > i {
                    assert(t[i as int].0 != oid@);
                }
            }
            return Some(table[i].1);
        }
        i = i + 1;
    }
    None
}

/// The name of an OID, or the OID itself.
pub open spec fn oid_label(oid: Seq<char>) -> Seq<char> {
    match oid_name(oid) {
        Some(n) => n,
        None => oid,
    }
}

/// The name of an OID, or the OID itself.
pub fn oid_label_string(oid: &str) -> (r: String)
    ensures
        r@ == oid_label(oid@),
{
    match oid_to_name(oid) {
        Some(n) => String::from_str(n),
        None => String::from_str(oid),
    }
}

/// Key-usage bits of a certificate.
#[derive(PartialEq, Eq, Structural, Clone, Copy, Debug)]
pub struct KeyUsageFlags {
    pub digital_signature: bool,
    pub non_repudiation: bool,
    pub key_encipherment: bool,
    pub data_encipherment: bool,
    pub key_agreement: bool,
    pub key_cert_sign: bool,
    pub crl_sign: bool,
    pub encipher_only: bool,
    pub decipher_only: bool,
}

/// `name` when `set`, nothing otherwise.
pub open spec fn if_set(set: bool, name: Seq<char>) -> Seq<Seq<char>> {
    if set {
        seq![name]
    } else {
        Seq::empty()
    }
}

/// The names of the set key-usage bits, in the standard's order.
pub open spec fn key_usage_names(k: KeyUsageFlags) -> Seq<Seq<char>> {
    if_set(k.digital_signature, "digital_signature"@) + if_set(
        k.non_repudiation,
        "non_repudiation"@,
    ) + if_set(k.key_encipherment, "key_encipherment"@) + if_set(
        k.data_encipherment,
        "data_encipherment"@,
    ) + if_set(k.key_agreement, "key_agreement"@) + if_set(k.key_cert_sign, "key_cert_sign"@)
        + if_set(k.crl_sign, "crl_sign"@) + if_set(k.encipher_only, "encipher_only"@) + if_set(
        k.decipher_only,
        "decipher_only"@,
    )
}

fn push_if(out: &mut Vec<String>, set: bool, name: &str)
    ensures
        final(out)@.map_values(|s: String| s@) == old(out)@.map_values(|s: String| s@) + if_set(
            set,
            name@,
        ),
{
    let ghost before = out@.map_values(|s: String| s@);
    if set {
        out.push(String::from_str(name));
    }
    assert(out@.map_values(|s: String| s@) =~= before + if_set(set, name@));
}

/// The names of the set key-usage bits.
pub fn collect_key_usage(k: &KeyUsageFlags) -> (r: Vec<String>)
    ensures
        r@.map_values(|s: String| s@) == key_usage_names(*k),
{
    let mut out: Vec<String> = Vec::new();
    assert(out@.map_values(|s: String| s@) =~= Seq::<Seq<char>>::empty());
    push_if(&mut out, k.digital_signature, "digital_signature");
    push_if(&mut out, k.non_repudiation, "non_repudiation");
    push_if(&mut out, k.key_encipherment, "key_encipherment");
    push_if(&mut out, k.data_encipherment, "data_encipherment");
    push_if(&mut out, k.key_agreement, "key_agreement");
    push_if(&mut out, k.key_cert_sign, "key_cert_sign");
    push_if(&mut out, k.crl_sign, "crl_sign");
    push_if(&mut out, k.encipher_only, "encipher_only");
    push_if(&mut out, k.decipher_only, "decipher_only");
    assert(Seq::<Seq<char>>::empty() + key_usage_names(*k) =~= key_usage_names(*k));
    out
}

/// Extended key usages of a certificate: the well-known ones as flags and
/// the rest as OID texts.
#[derive(Debug)]
pub struct ExtendedKeyUsageFlags {
    pub any: bool,
    pub server_auth: bool,
    pub client_auth: bool,
    pub code_signing: bool,
    pub email_protection: bool,
    pub time_stamping: bool,
    pub ocsp_signing: bool,
    pub other: Vec<String>,
}

/// The names of the extended key usages: the flagged ones in order, then
/// each other OID by name, or as itself.
pub open spec fn extended_key_usage_names(e: ExtendedKeyUsageFlags) -> Seq<Seq<char>> {
    if_set(e.any, "any_extended_key_usage"@) + if_set(e.server_auth, "server_auth"@) + if_set(
        e.client_auth,
        "client_auth"@,
    ) + if_set(e.code_signing, "code_signing"@) + if_set(e.email_protection, "email_protection"@)
        + if_set(e.time_stamping, "time_stamping"@) + if_set(e.ocsp_signing, "ocsp_signing"@)
        + e.other@.map_values(|o: String| oid_label(o@))
}

/// The names of the extended key usages.
pub fn collect_extended_key_usage(e: &ExtendedKeyUsageFlags) -> (r: Vec<String>)
    ensures
        r@.map_values(|s: String| s@) == extended_key_usage_names(*e),
{
    let mut out: Vec<String> = Vec::new();
    assert(out@.map_values(|s: String| s@) =~= Seq::<Seq<char>>::empty());
    push_if(&mut out, e.any, "any_extended_key_usage");
    push_if(&mut out, e.server_auth, "server_auth");
    push_if(&mut out, e.client_auth, "client_auth");
    push_if(&mut out, e.code_signing, "code_signing");
    push_if(&mut out, e.email_protection, "email_protection");
    push_if(&mut out, e.time_stamping, "time_stamping");
    push_if(&mut out, e.ocsp_signing, "ocsp_signing");
    let ghost flags = out@.map_values(|s: String| s@);
    let mut i: usize = 0;
    while i < e.other.len()
        invariant
            i <= e.other@.len(),
            out@.map_values(|s: String| s@) == flags + e.other@.take(i as int).map_values(
                |o: String| oid_label(o@),
            ),
        decreases e.other@.len() - i,
    {
        let ghost before = out@.map_values(|s: String| s@);
        out.push(oid_label_string(e.other[i].as_str()));
        assert(e.other@.take(i + 1).map_values(|o: String| oid_label(o@)) =~= e.other@.take(
            i as int,
        ).map_values(|o: String| oid_label(o@)).push(oid_label(e.other@[i as int]@)));
        assert(out@.map_values(|s: String| s@) =~= before.push(oid_label(e.other@[i as int]@)));
        i = i + 1;
    }
    assert(e.other@.take(e.other@.len() as int) =~= e.other@);
    assert(Seq::<Seq<char>>::empty() + if_set(e.any, "any_extended_key_usage"@) =~= if_set(e.any, "any_extended_key_usage"@));
    assert(out@.map_values(|s: String| s@) =~= extended_key_usage_names(*e));
    out
}

/// Lower-case hex text of a number, without leading zeros.
pub open spec fn hex_number(n: nat) -> Seq<char>
    decreases n,
{
    if n < 16 {
        seq![hex_char(n)]
    } else {
        hex_number(n / 16).push(hex_char(n % 16))
    }
}

fn hex_number_string(n: u64) -> (r: String)
    ensures
        r@ == hex_number(n as nat),
    decreases n,
{
    if n < 16 {
        String::from_str(hex_digit(n as u8))
    } else {
        let mut s = hex_number_string(n / 16);
        s.append(hex_digit((n % 16) as u8));
        s
    }
}

/// Big-endian 16-bit group `i` of an IPv6 address.
pub open spec fn ip_group(b: Seq<u8>, i: int) -> nat {
    (b[2 * i] as nat) * 256 + b[2 * i + 1] as nat
}

/// How an IP address of a SAN is shown: dotted decimal for 4 bytes, eight
/// hex groups for 16 bytes, the byte count otherwise.
pub open spec fn render_ip_spec(b: Seq<u8>) -> Seq<char> {
    if b.len() == 4 {
        "IP:"@ + decimal(b[0] as nat) + "."@ + decimal(b[1] as nat) + "."@ + decimal(b[2] as nat)
            + "."@ + decimal(b[3] as nat)
    } else if b.len() == 16 {
        "IP:"@ + hex_number(ip_group(b, 0)) + ":"@ + hex_number(ip_group(b, 1)) + ":"@ + hex_number(
            ip_group(b, 2),
        ) + ":"@ + hex_number(ip_group(b, 3)) + ":"@ + hex_number(ip_group(b, 4)) + ":"@
            + hex_number(ip_group(b, 5)) + ":"@ + hex_number(ip_group(b, 6)) + ":"@ + hex_number(
            ip_group(b, 7),
        )
    } else {
        "IP:<"@ + decimal(b.len()) + " bytes>"@
    }
}

/// Show an IP address of a SAN (see `render_ip_spec`).
pub fn render_ip(bytes: &[u8]) -> (r: String)
    ensures
        r@ == render_ip_spec(bytes@),
{
    proof {
        reveal_strlit("IP:");
        reveal_strlit(".");
        reveal_strlit(":");
        reveal_strlit("IP:<");
        reveal_strlit(" bytes>");
    }
    if bytes.len() == 4 {
        let mut s = String::from_str("IP:");
        let d0 = u64_to_decimal(bytes[0] as u64);
        s.append(d0.as_str());
        s.append(".");
        let d1 = u64_to_decimal(bytes[1] as u64);
        s.append(d1.as_str());
        s.append(".");
        let d2 = u64_to_decimal(bytes[2] as u64);
        s.append(d2.as_str());
        s.append(".");
        let d3 = u64_to_decimal(bytes[3] as u64);
        s.append(d3.as_str());
        s
    } else if bytes.len() == 16 {
        let mut s = String::from_str("IP:");
        let mut i: usize = 0;
        let ghost b = bytes@;
        while i < 8
            invariant
                i <= 8,
                b == bytes@,
                b.len() == 16,
                i == 0 ==> s@ == "IP:"@,
                i > 0 ==> s@ == ip_groups_text(b, i as int),
            decreases 8 - i,
        {
            let g: u64 = (bytes[2 * i] as u64) * 256 + bytes[2 * i + 1] as u64;
            let h = hex_number_string(g);
            if i > 0 {
                s.append(":");
            }
            s.append(h.as_str());
            i = i + 1;
        }
        assert(ip_groups_text(b, 8) =~= render_ip_spec(b)) by {
            reveal_with_fuel(ip_groups_text, 9);
        }
        s
    } else {
        let n = u64_to_decimal(bytes.len() as u64);
        let mut s = String::from_str("IP:<");
        s.append(n.as_str());
        s.append(" bytes>");
        s
    }
}

/// "IP:" followed by the first `k` groups, separated by colons.
pub open spec fn ip_groups_text(b: Seq<u8>, k: int) -> Seq<char>
    decreases k,
{
    if k <= 1 {
        "IP:"@ + hex_number(ip_group(b, 0))
    } else {
        ip_groups_text(b, k - 1) + ":"@ + hex_number(ip_group(b, k - 1))
    }
}

/// A subject alternative name.
#[derive(Debug)]
pub enum GeneralNameValue {
    DNSName(String),
    RFC822Name(String),
    URI(String),
    IPAddress(Vec<u8>),
    /// The directory name as text.
    DirectoryName(String),
    /// The type OID of an other-name.
    OtherName(String),
    RegisteredID(String),
    X400Address,
    EDIPartyName,
}

/// How a subject alternative name is shown.
pub open spec fn render_general_name_spec(g: GeneralNameValue) -> Seq<char> {
    match g {
        GeneralNameValue::DNSName(s) => "DNS:"@ + s@,
        GeneralNameValue::RFC822Name(s) => "email:"@ + s@,
        GeneralNameValue::URI(s) => "URI:"@ + s@,
        GeneralNameValue::IPAddress(b) => render_ip_spec(b@),
        GeneralNameValue::DirectoryName(s) => "DirName:"@ + s@,
        GeneralNameValue::OtherName(o) => "OtherName:"@ + oid_label(o@),
        GeneralNameValue::RegisteredID(o) => "RegisteredID:"@ + oid_label(o@),
        GeneralNameValue::X400Address => "X400Address:<unparsed>"@,
        GeneralNameValue::EDIPartyName => "EDIPartyName:<unparsed>"@,
    }
}

/// Show a subject alternative name.
pub fn render_general_name(g: &GeneralNameValue) -> (r: String)
    ensures
        r@ == render_general_name_spec(*g),
{
    proof {
        reveal_strlit("DNS:");
        reveal_strlit("email:");
        reveal_strlit("URI:");
        reveal_strlit("DirName:");
        reveal_strlit("OtherName:");
        reveal_strlit("RegisteredID:");
        reveal_strlit("X400Address:<unparsed>");
        reveal_strlit("EDIPartyName:<unparsed>");
    }
    match g {
        GeneralNameValue::DNSName(s) => concat2("DNS:", s.as_str()),
        GeneralNameValue::RFC822Name(s) => concat2("email:", s.as_str()),
        GeneralNameValue::URI(s) => concat2("URI:", s.as_str()),
        GeneralNameValue::IPAddress(b) => render_ip(b.as_slice()),
        GeneralNameValue::DirectoryName(s) => concat2("DirName:", s.as_str()),
        GeneralNameValue::OtherName(o) => {
            let l = oid_label_string(o.as_str());
            concat2("OtherName:", l.as_str())
        },
        GeneralNameValue::RegisteredID(o) => {
            let l = oid_label_string(o.as_str());
            concat2("RegisteredID:", l.as_str())
        },
        GeneralNameValue::X400Address => String::from_str("X400Address:<unparsed>"),
        GeneralNameValue::EDIPartyName => String::from_str("EDIPartyName:<unparsed>"),
    }
}

/// Validity status at `now`: not yet valid before the window, expired
/// after it, active within it (both ends included).
pub open spec fn cert_status_spec(now: i64, not_before: i64, not_after: i64) -> Seq<char> {
    if now < not_before {
        "not_yet_valid"@
    } else if now > not_after {
        "expired"@
    } else {
        "active"@
    }
}

/// Validity status of a certificate at `now`.
pub fn cert_status(now: i64, not_before: i64, not_after: i64) -> (r: &'static str)
    ensures
        r@ == cert_status_spec(now, not_before, not_after),
{
    if now < not_before {
        "not_yet_valid"
    } else if now > not_after {
        "expired"
    } else {
        "active"
    }
}

/// What a decoded certificate shows.
#[derive(Debug)]
pub struct CertFacts {
    pub der: Vec<u8>,
    pub subject: String,
    pub issuer: String,
    pub not_before: i64,
    pub not_after: i64,
    pub serial: Vec<u8>,
    pub signature_oid: String,
    pub key_oid: String,
    pub key_usage: Option<KeyUsageFlags>,
    pub extended_key_usage: Option<ExtendedKeyUsageFlags>,
    pub subject_alt_names: Vec<GeneralNameValue>,
    /// Every extension: its OID text and criticality.
    pub extensions: Vec<(String, bool)>,
}

/// JSON array of strings.
pub open spec fn str_array(s: Seq<Seq<char>>) -> JsonModel {
    JsonModel::Array(s.map_values(|x: Seq<char>| JsonModel::Str(x)))
}

/// JSON of an optional text.
pub open spec fn opt_str_json(o: Option<Seq<char>>) -> JsonModel {
    match o {
        Some(s) => JsonModel::Str(s),
        None => JsonModel::Null,
    }
}

/// JSON of one extension.
pub open spec fn extension_json(e: (String, bool)) -> JsonModel {
    JsonModel::Object(
        seq![
            ("oid"@, JsonModel::Str(e.0@)),
            ("critical"@, JsonModel::Bool(e.1)),
            ("name"@, opt_str_json(oid_name(e.0@))),
        ],
    )
}

/// The identity, validity and algorithm members of a certificate summary.
pub open spec fn cert_head_spec(f: CertFacts, now: i64) -> Seq<(Seq<char>, JsonModel)> {
    let blake = hex_text(blake3_digest(f.der@));
    seq![
        ("id"@, JsonModel::Str(blake)),
        ("subject"@, JsonModel::Str(f.subject@)),
        ("issuer"@, JsonModel::Str(f.issuer@)),
        ("valid_from"@, opt_str_json(rfc3339_of_unix(f.not_before))),
        ("valid_to"@, opt_str_json(rfc3339_of_unix(f.not_after))),
        ("status"@, JsonModel::Str(cert_status_spec(now, f.not_before, f.not_after))),
        ("serial_number"@, JsonModel::Str(hex_text(f.serial@))),
        ("signature_algorithm"@, JsonModel::Str(oid_label(f.signature_oid@))),
        ("signature_algorithm_oid"@, JsonModel::Str(f.signature_oid@)),
        ("key_algorithm"@, JsonModel::Str(oid_label(f.key_oid@))),
        ("key_algorithm_oid"@, JsonModel::Str(f.key_oid@)),
        ("fingerprint_sha256"@, JsonModel::Str(hex_text(sha256_digest(f.der@)))),
        ("fingerprint_blake3"@, JsonModel::Str(blake)),
    ]
}

/// The usage, name and extension members of a certificate summary.
pub open spec fn cert_tail_spec(f: CertFacts, path: Seq<char>) -> Seq<(Seq<char>, JsonModel)> {
    seq![
        ("key_usage"@, str_array(match f.key_usage {
            Some(k) => key_usage_names(k),
            None => Seq::empty(),
        })),
        ("extended_key_usage"@, str_array(match f.extended_key_usage {
            Some(e) => extended_key_usage_names(e),
            None => Seq::empty(),
        })),
        ("subject_alt_names"@, str_array(f.subject_alt_names@.map_values(
            |g: GeneralNameValue| render_general_name_spec(g),
        ))),
        ("extensions"@, JsonModel::Array(f.extensions@.map_values(|e: (String, bool)| extension_json(e)))),
        ("path"@, JsonModel::Str(path)),
    ]
}

/// The JSON summary of a certificate at `now`, read from `path`: its
/// BLAKE3 id, names, validity window and status, serial number,
/// algorithms by name and OID, fingerprints, usages, alternative names,
/// extensions, and the path.
pub open spec fn cert_json_spec(f: CertFacts, path: Seq<char>, now: i64) -> JsonModel {
    JsonModel::Object(cert_head_spec(f, now) + cert_tail_spec(f, path))
}

fn strings_json(v: Vec<String>) -> (r: JsonValue)
    ensures
        r@ == str_array(v@.map_values(|s: String| s@)),
{
    let mut items: Vec<JsonValue> = Vec::new();
    proof {
        crate::json::lemma_models_of_len(items@);
        assert(models_of(items@) =~= Seq::empty());
    }
    let ghost all = v@;
    let n = v.len();
    let mut rest = v;
    let mut k: usize = 0;
    while rest.len() > 0
        invariant
            k <= all.len(),
            all.len() == n,
            rest@ == all.skip(k as int),
            models_of(items@) == all.take(k as int).map_values(|s: String| s@).map_values(
                |x: Seq<char>| JsonModel::Str(x),
            ),
        decreases rest@.len(),
    {
        let s = rest.remove(0);
        let ghost before = models_of(items@);
        assert(all[k as int] == s);
        push_item(&mut items, JsonValue::Str(s));
        assert(all.take(k + 1).map_values(|s: String| s@).map_values(|x: Seq<char>| JsonModel::Str(x))
            =~= before.push(JsonModel::Str(all[k as int]@)));
        k = k + 1;
        assert(rest@ =~= all.skip(k as int));
    }
    assert(all.take(all.len() as int) =~= all);
    JsonValue::Array(items)
}

fn names_json(g: &Vec<GeneralNameValue>) -> (r: JsonValue)
    ensures
        r@ == str_array(g@.map_values(|x: GeneralNameValue| render_general_name_spec(x))),
{
    let mut out: Vec<String> = Vec::new();
    let mut i: usize = 0;
    while i < g.len()
        invariant
            i <= g@.len(),
            out@.map_values(|s: String| s@) == g@.take(i as int).map_values(
                |x: GeneralNameValue| render_general_name_spec(x),
            ),
        decreases g@.len() - i,
    {
        let ghost before = out@.map_values(|s: String| s@);
        out.push(render_general_name(&g[i]));
        assert(out@.map_values(|s: String| s@) =~= before.push(render_general_name_spec(g@[i as int])));
        assert(g@.take(i + 1).map_values(|x: GeneralNameValue| render_general_name_spec(x)) =~= g@.take(
            i as int,
        ).map_values(|x: GeneralNameValue| render_general_name_spec(x)).push(
            render_general_name_spec(g@[i as int]),
        ));
        i = i + 1;
    }
    assert(g@.take(g@.len() as int) =~= g@);
    strings_json(out)
}

fn extensions_json(es: &Vec<(String, bool)>) -> (r: JsonValue)
    ensures
        r@ == JsonModel::Array(es@.map_values(|e: (String, bool)| extension_json(e))),
{
    let mut items: Vec<JsonValue> = Vec::new();
    proof {
        crate::json::lemma_models_of_len(items@);
        assert(models_of(items@) =~= Seq::empty());
    }
    let mut i: usize = 0;
    while i < es.len()
        invariant
            i <= es@.len(),
            models_of(items@) == es@.take(i as int).map_values(|e: (String, bool)| extension_json(e)),
        decreases es@.len() - i,
    {
        let ghost before = models_of(items@);
        let mut entries: Vec<(String, JsonValue)> = Vec::new();
        proof {
            crate::json::lemma_entry_models_of_len(entries@);
            assert(crate::json::entry_models_of(entries@) =~= Seq::empty());
        }
        let name = match oid_to_name(es[i].0.as_str()) {
            Some(n) => JsonValue::from_str_slice(n),
            None => JsonValue::Null,
        };
        push_entry(&mut entries, "oid", JsonValue::Str(copy_string(&es[i].0)));
        push_entry(&mut entries, "critical", JsonValue::Bool(es[i].1));
        push_entry(&mut entries, "name", name);
        assert(crate::json::entry_models_of(entries@) =~= seq![
            ("oid"@, JsonModel::Str(es@[i as int].0@)),
            ("critical"@, JsonModel::Bool(es@[i as int].1)),
            ("name"@, opt_str_json(oid_name(es@[i as int].0@))),
        ]);
        push_item(&mut items, JsonValue::Object(entries));
        assert(es@.take(i + 1).map_values(|e: (String, bool)| extension_json(e)) =~= before.push(
            extension_json(es@[i as int]),
        ));
        i = i + 1;
    }
    assert(es@.take(es@.len() as int) =~= es@);
    JsonValue::Array(items)
}

fn opt_text_json(o: Option<String>) -> (r: JsonValue)
    ensures
        r@ == match o {
            Some(s) => JsonModel::Str(s@),
            None => JsonModel::Null,
        },
{
    match o {
        Some(s) => JsonValue::Str(s),
        None => JsonValue::Null,
    }
}

fn cert_head(f: &CertFacts, now: i64) -> (r: Vec<(String, JsonValue)>)
    ensures
        crate::json::entry_models_of(r@) == cert_head_spec(*f, now),
{
    let blake = hex_encode(blake3_hash(f.der.as_slice()).as_slice());
    let sha = hex_encode(sha256(f.der.as_slice()).as_slice());
    let mut entries: Vec<(String, JsonValue)> = Vec::new();
    proof {
        crate::json::lemma_entry_models_of_len(entries@);
        assert(crate::json::entry_models_of(entries@) =~= Seq::empty());
    }
    push_entry(&mut entries, "id", JsonValue::Str(copy_string(&blake)));
    push_entry(&mut entries, "subject", JsonValue::Str(copy_string(&f.subject)));
    push_entry(&mut entries, "issuer", JsonValue::Str(copy_string(&f.issuer)));
    push_entry(&mut entries, "valid_from", opt_text_json(unix_to_rfc3339(f.not_before)));
    push_entry(&mut entries, "valid_to", opt_text_json(unix_to_rfc3339(f.not_after)));
    push_entry(
        &mut entries,
        "status",
        JsonValue::from_str_slice(cert_status(now, f.not_before, f.not_after)),
    );
    push_entry(&mut entries, "serial_number", JsonValue::Str(hex_encode(f.serial.as_slice())));
    push_entry(
        &mut entries,
        "signature_algorithm",
        JsonValue::Str(oid_label_string(f.signature_oid.as_str())),
    );
    push_entry(&mut entries, "signature_algorithm_oid", JsonValue::Str(copy_string(&f.signature_oid)));
    push_entry(&mut entries, "key_algorithm", JsonValue::Str(oid_label_string(f.key_oid.as_str())));
    push_entry(&mut entries, "key_algorithm_oid", JsonValue::Str(copy_string(&f.key_oid)));
    push_entry(&mut entries, "fingerprint_sha256", JsonValue::Str(sha));
    push_entry(&mut entries, "fingerprint_blake3", JsonValue::Str(blake));
    assert(crate::json::entry_models_of(entries@) =~= cert_head_spec(*f, now));
    entries
}

fn cert_tail(entries: &mut Vec<(String, JsonValue)>, f: &CertFacts, path: &str)
    ensures
        crate::json::entry_models_of(final(entries)@) == crate::json::entry_models_of(old(entries)@)
            + cert_tail_spec(*f, path@),
{
    let ghost start = crate::json::entry_models_of(entries@);
    let key_usage = match &f.key_usage {
        Some(k) => collect_key_usage(k),
        None => Vec::new(),
    };
    let eku = match &f.extended_key_usage {
        Some(e) => collect_extended_key_usage(e),
        None => Vec::new(),
    };
    proof {
        assert(key_usage@.map_values(|s: String| s@) =~= match f.key_usage {
            Some(k) => key_usage_names(k),
            None => Seq::empty(),
        });
        assert(eku@.map_values(|s: String| s@) =~= match f.extended_key_usage {
            Some(e) => extended_key_usage_names(e),
            None => Seq::empty(),
        });
    }
    push_entry(entries, "key_usage", strings_json(key_usage));
    push_entry(entries, "extended_key_usage", strings_json(eku));
    push_entry(entries, "subject_alt_names", names_json(&f.subject_alt_names));
    push_entry(entries, "extensions", extensions_json(&f.extensions));
    push_entry(entries, "path", JsonValue::from_str_slice(path));
    assert(crate::json::entry_models_of(entries@) =~= start + cert_tail_spec(*f, path@));
}

/// The JSON summary of a certificate (see `cert_json_spec`).
pub fn cert_to_json(f: &CertFacts, path: &str, now: i64) -> (r: JsonValue)
    ensures
        r@ == cert_json_spec(*f, path@, now),
{
    let mut entries = cert_head(f, now);
    cert_tail(&mut entries, f, path);
    JsonValue::Object(entries)
}

} // verus!

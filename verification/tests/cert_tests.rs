use blockmatrix::cert_der::{decode_cert, key_usage_from_bits, parse_cert_to_json};
use blockmatrix::json::JsonValue;
use blockmatrix::x509::GeneralNameValue;

/// A certificate for `CN=node.test` issued by `CN=Test CA`, serial 0x1234,
/// valid 2024-01-01 to 2030-01-01, P-256 key signed with ECDSA-SHA256, with
/// key usage (digital signature, certificate signing; critical), extended
/// key usage (server and client auth) and alternative names
/// `DNS:node.test` and `IP:127.0.0.1`.
const NODE_CERT_HEX: &str = "3082016330820109a00302010202021234300a06082a8648ce3d04030230123110300e06035504030c0754657374204341301e170d3234303130313030303030305a170d3330303130313030303030305a30143112301006035504030c096e6f64652e746573743059301306072a8648ce3d020106082a8648ce3d03010703420004fb50388f29498d0a93ad25ec4c34037b9d3cc3cca4787eb6fedabe2b3003eac89f7765ca9d6288e6ff734f5cd08f3a5921cf54b21bb398b50ac0d2577fa07472a34d304b300e0603551d0f0101ff040403020284301d0603551d250416301406082b0601050507030106082b06010505070302301a0603551d110413301182096e6f64652e7465737487047f000001300a06082a8648ce3d0403020348003045022100a4dc5f29776e192bca83865587155b0674ba903103fd73ec48621dbb68375529022046ea91fb62b9036b62086833b45242693dfdfd5ddc8f964cff6018a6b3741f98";

fn node_cert() -> Vec<u8> {
    hex::decode(NODE_CERT_HEX).unwrap()
}

fn member<'a>(v: &'a JsonValue, key: &str) -> &'a JsonValue {
    v.get(key).expect("member present")
}

fn text(v: &JsonValue) -> &str {
    match v {
        JsonValue::Str(s) => s.as_str(),
        _ => panic!("not a string"),
    }
}

fn texts(v: &JsonValue) -> Vec<String> {
    match v {
        JsonValue::Array(items) => items.iter().map(|i| text(i).to_string()).collect(),
        _ => panic!("not an array"),
    }
}

#[test]
fn decodes_certificate_header() {
    let der = node_cert();
    let f = decode_cert(&der).unwrap();
    assert_eq!(f.der, der);
    assert_eq!(f.subject, "CN=node.test");
    assert_eq!(f.issuer, "CN=Test CA");
    assert_eq!(f.not_before, 1_704_067_200);
    assert_eq!(f.not_after, 1_893_456_000);
    assert_eq!(f.serial, vec![0x12, 0x34]);
    assert_eq!(f.signature_oid, "1.2.840.10045.4.3.2");
    assert_eq!(f.key_oid, "1.2.840.10045.2.1");
}

#[test]
fn decodes_certificate_extensions() {
    let f = decode_cert(&node_cert()).unwrap();
    let ku = f.key_usage.unwrap();
    assert!(ku.digital_signature && ku.key_cert_sign);
    assert!(!ku.non_repudiation && !ku.key_encipherment && !ku.crl_sign && !ku.decipher_only);
    let eku = f.extended_key_usage.unwrap();
    assert!(eku.server_auth && eku.client_auth);
    assert!(!eku.any && !eku.code_signing && eku.other.is_empty());
    assert_eq!(f.subject_alt_names.len(), 2);
    assert!(matches!(&f.subject_alt_names[0], GeneralNameValue::DNSName(s) if s == "node.test"));
    assert!(matches!(&f.subject_alt_names[1], GeneralNameValue::IPAddress(b) if b == &vec![127, 0, 0, 1]));
    assert_eq!(
        f.extensions,
        vec![
            ("2.5.29.15".to_string(), true),
            ("2.5.29.37".to_string(), false),
            ("2.5.29.17".to_string(), false),
        ]
    );
}

#[test]
fn rejects_bytes_that_are_no_certificate() {
    let e = decode_cert(&[0x30, 0x03, 0x01, 0x02]).unwrap_err();
    assert!(e.starts_with("parse failed: "));
    assert!(e.len() > "parse failed: ".len());
    let e = parse_cert_to_json(&[], "/tmp/none.der", 0).unwrap_err();
    assert!(e.starts_with("parse failed: "));
}

#[test]
fn key_usage_bits_low_bit_first() {
    let k = key_usage_from_bits(0x21);
    assert!(k.digital_signature && k.key_cert_sign);
    assert!(!k.non_repudiation && !k.key_encipherment && !k.data_encipherment);
    assert!(!k.key_agreement && !k.crl_sign && !k.encipher_only && !k.decipher_only);
    let k = key_usage_from_bits(0x100);
    assert!(k.decipher_only && !k.digital_signature);
}

#[test]
fn certificate_summary_of_der() {
    let j = parse_cert_to_json(&node_cert(), "/etc/hypermesh/certs/node.der", 1_750_000_000).unwrap();
    assert_eq!(text(member(&j, "subject")), "CN=node.test");
    assert_eq!(text(member(&j, "issuer")), "CN=Test CA");
    assert_eq!(text(member(&j, "valid_from")), "2024-01-01T00:00:00Z");
    assert_eq!(text(member(&j, "valid_to")), "2030-01-01T00:00:00Z");
    assert_eq!(text(member(&j, "status")), "active");
    assert_eq!(text(member(&j, "serial_number")), "1234");
    assert_eq!(text(member(&j, "signature_algorithm")), "ECDSA-SHA256");
    assert_eq!(text(member(&j, "key_algorithm")), "EC-PublicKey");
    assert_eq!(
        text(member(&j, "fingerprint_sha256")),
        "5af4ecbf6b84bb60cbd2429b879f6dbd00be409847297fe49dfe3c08f4ad01ad"
    );
    assert_eq!(text(member(&j, "id")), text(member(&j, "fingerprint_blake3")));
    assert_eq!(text(member(&j, "id")).len(), 64);
    assert_eq!(texts(member(&j, "key_usage")), vec!["digital_signature", "key_cert_sign"]);
    assert_eq!(texts(member(&j, "extended_key_usage")), vec!["server_auth", "client_auth"]);
    assert_eq!(texts(member(&j, "subject_alt_names")), vec!["DNS:node.test", "IP:127.0.0.1"]);
    assert_eq!(text(member(&j, "path")), "/etc/hypermesh/certs/node.der");
    match member(&j, "extensions") {
        JsonValue::Array(items) => {
            assert_eq!(items.len(), 3);
            assert_eq!(text(member(&items[0], "oid")), "2.5.29.15");
            assert!(matches!(member(&items[0], "critical"), JsonValue::Bool(true)));
            assert_eq!(text(member(&items[0], "name")), "key_usage");
        }
        _ => panic!("extensions not an array"),
    }
}

#[test]
fn certificate_status_follows_clock() {
    let der = node_cert();
    let before = parse_cert_to_json(&der, "p", 1_700_000_000).unwrap();
    assert_eq!(text(member(&before, "status")), "not_yet_valid");
    let after = parse_cert_to_json(&der, "p", 1_900_000_000).unwrap();
    assert_eq!(text(member(&after, "status")), "expired");
}

//! Decoding a DER certificate into the facts of its summary. Parsing is
//! `x509-parser`'s, behind trusted wrappers that each read one part of the
//! certificate; the key-usage bits, the assembly of the facts and the
//! summary are verified here.

use vstd::prelude::*;
use x509_parser::extensions::GeneralName;
use crate::json::JsonValue;
use crate::text::concat2;
use crate::x509::{
    cert_json_spec, cert_to_json, CertFacts, ExtendedKeyUsageFlags, GeneralNameValue, KeyUsageFlags,
};

verus! {

/// Name for what `x509_parser::parse_x509_certificate` reads from `der`: on
/// success the subject and issuer names as text, the validity window in
/// Unix seconds, the raw serial bytes, and the signature and public-key
/// algorithm OIDs as text; on failure the `Display` text of the error.
pub uninterp spec fn x509_header(der: Seq<u8>) -> Result<
    (Seq<char>, Seq<char>, i64, i64, Seq<u8>, Seq<char>, Seq<char>),
    Seq<char>,
>;

/// Trusted wrapper for `x509_parser::parse_x509_certificate`, reading the
/// names, validity window, serial and algorithm OIDs of the certificate.
/// Its result is the named result on `der`.
#[verifier::external_body]
fn decode_header(der: &[u8]) -> (r: Result<(String, String, i64, i64, Vec<u8>, String, String), String>)
    ensures
        match x509_header(der@) {
            Ok(h) => r matches Ok(t) && t.0@ == h.0 && t.1@ == h.1 && t.2 == h.2 && t.3 == h.3
                && t.4@ == h.4 && t.5@ == h.5 && t.6@ == h.6,
            Err(m) => r matches Err(e) && e@ == m,
        },
{
    let (_, c) = x509_parser::parse_x509_certificate(der).map_err(|e| e.to_string())?;
    let t = &c.tbs_certificate;
    Ok((
        t.subject.to_string(),
        t.issuer.to_string(),
        t.validity.not_before.timestamp(),
        t.validity.not_after.timestamp(),
        t.raw_serial().to_vec(),
        t.signature.algorithm.to_string(),
        t.subject_pki.algorithm.algorithm.to_string(),
    ))
}

/// Name for the bit field of the key-usage extension of the certificate in
/// `der`, as `TbsCertificate::key_usage` reads it; `None` when there is no
/// such extension, or it or the certificate cannot be read.
pub uninterp spec fn x509_key_usage_bits(der: Seq<u8>) -> Option<u16>;

/// Trusted wrapper for `TbsCertificate::key_usage` on the certificate in
/// `der`, giving the extension's `flags` field; its result is the named
/// result on `der`.
#[verifier::external_body]
fn decode_key_usage_bits(der: &[u8]) -> (r: Option<u16>)
    ensures
        r == x509_key_usage_bits(der@),
{
    match x509_parser::parse_x509_certificate(der) {
        Ok((_, c)) => match c.tbs_certificate.key_usage() {
            Ok(Some(ext)) => Some(ext.value.flags),
            _ => None,
        },
        Err(_) => None,
    }
}

/// The key-usage flags a bit field stands for, bit 0 first: digital
/// signature, non-repudiation, key encipherment, data encipherment, key
/// agreement, certificate signing, CRL signing, encipher only, decipher
/// only (the reading of `x509_parser::extensions::KeyUsage`'s accessors).
pub open spec fn key_usage_of_bits(b: u16) -> KeyUsageFlags {
    KeyUsageFlags {
        digital_signature: b & 1u16 == 1u16,
        non_repudiation: (b >> 1u16) & 1u16 == 1u16,
        key_encipherment: (b >> 2u16) & 1u16 == 1u16,
        data_encipherment: (b >> 3u16) & 1u16 == 1u16,
        key_agreement: (b >> 4u16) & 1u16 == 1u16,
        key_cert_sign: (b >> 5u16) & 1u16 == 1u16,
        crl_sign: (b >> 6u16) & 1u16 == 1u16,
        encipher_only: (b >> 7u16) & 1u16 == 1u16,
        decipher_only: (b >> 8u16) & 1u16 == 1u16,
    }
}

/// The key-usage flags of a bit field.
pub fn key_usage_from_bits(b: u16) -> (r: KeyUsageFlags)
    ensures
        r == key_usage_of_bits(b),
{
    KeyUsageFlags {
        digital_signature: b & 1u16 == 1u16,
        non_repudiation: (b >> 1u16) & 1u16 == 1u16,
        key_encipherment: (b >> 2u16) & 1u16 == 1u16,
        data_encipherment: (b >> 3u16) & 1u16 == 1u16,
        key_agreement: (b >> 4u16) & 1u16 == 1u16,
        key_cert_sign: (b >> 5u16) & 1u16 == 1u16,
        crl_sign: (b >> 6u16) & 1u16 == 1u16,
        encipher_only: (b >> 7u16) & 1u16 == 1u16,
        decipher_only: (b >> 8u16) & 1u16 == 1u16,
    }
}

impl View for ExtendedKeyUsageFlags {
    type V = (bool, bool, bool, bool, bool, bool, bool, Seq<Seq<char>>);

    /// The seven well-known usages in declaration order, then the other
    /// OIDs as text.
    open spec fn view(&self) -> Self::V {
        (
            self.any,
            self.server_auth,
            self.client_auth,
            self.code_signing,
            self.email_protection,
            self.time_stamping,
            self.ocsp_signing,
            self.other@.map_values(|o: String| o@),
        )
    }
}

/// Name for the extended key usages of the certificate in `der`, as
/// `TbsCertificate::extended_key_usage` reads them: any, server auth,
/// client auth, code signing, e-mail protection, time stamping and OCSP
/// signing as flags, and the other OIDs as text in order; `None` when there
/// is no such extension, or it or the certificate cannot be read.
pub uninterp spec fn x509_extended_key_usage(der: Seq<u8>) -> Option<
    (bool, bool, bool, bool, bool, bool, bool, Seq<Seq<char>>),
>;

/// Trusted wrapper for `TbsCertificate::extended_key_usage` on the
/// certificate in `der`; its result, by its view, is the named result on
/// `der`.
#[verifier::external_body]
fn decode_extended_key_usage(der: &[u8]) -> (r: Option<ExtendedKeyUsageFlags>)
    ensures
        match x509_extended_key_usage(der@) {
            Some(t) => r matches Some(e) && e@ == t,
            None => r is None,
        },
{
    match x509_parser::parse_x509_certificate(der) {
        Ok((_, c)) => match c.tbs_certificate.extended_key_usage() {
            Ok(Some(ext)) => Some(ExtendedKeyUsageFlags {
                any: ext.value.any, server_auth: ext.value.server_auth,
                client_auth: ext.value.client_auth, code_signing: ext.value.code_signing,
                email_protection: ext.value.email_protection, time_stamping: ext.value.time_stamping,
                ocsp_signing: ext.value.ocsp_signing,
                other: ext.value.other.iter().map(|o| o.to_string()).collect(),
            }),
            _ => None,
        },
        Err(_) => None,
    }
}

/// A subject alternative name as text and bytes.
pub enum GeneralNameModel {
    DNSName(Seq<char>),
    RFC822Name(Seq<char>),
    URI(Seq<char>),
    IPAddress(Seq<u8>),
    DirectoryName(Seq<char>),
    OtherName(Seq<char>),
    RegisteredID(Seq<char>),
    X400Address,
    EDIPartyName,
}

impl View for GeneralNameValue {
    type V = GeneralNameModel;

    open spec fn view(&self) -> GeneralNameModel {
        match self {
            GeneralNameValue::DNSName(s) => GeneralNameModel::DNSName(s@),
            GeneralNameValue::RFC822Name(s) => GeneralNameModel::RFC822Name(s@),
            GeneralNameValue::URI(s) => GeneralNameModel::URI(s@),
            GeneralNameValue::IPAddress(b) => GeneralNameModel::IPAddress(b@),
            GeneralNameValue::DirectoryName(s) => GeneralNameModel::DirectoryName(s@),
            GeneralNameValue::OtherName(o) => GeneralNameModel::OtherName(o@),
            GeneralNameValue::RegisteredID(o) => GeneralNameModel::RegisteredID(o@),
            GeneralNameValue::X400Address => GeneralNameModel::X400Address,
            GeneralNameValue::EDIPartyName => GeneralNameModel::EDIPartyName,
        }
    }
}

/// Name for the subject alternative names of the certificate in `der`, in
/// order, as `TbsCertificate::subject_alternative_name` reads them (names
/// and OIDs as their `Display` text, IP addresses as their bytes); empty
/// when there is no such extension, or it or the certificate cannot be read.
pub uninterp spec fn x509_alt_names(der: Seq<u8>) -> Seq<GeneralNameModel>;

/// Whether an alternative name is of a kind given as text: a DNS name, an
/// e-mail address, a URI or a directory name.
pub open spec fn is_text_name(m: GeneralNameModel) -> bool {
    m is DNSName || m is RFC822Name || m is URI || m is DirectoryName
}

/// Trusted wrapper for `TbsCertificate::subject_alternative_name` on the
/// certificate in `der`, converting the names of the kinds given as text
/// and leaving `None` in place of the others; by its view, each entry is
/// the named entry of its position.
#[verifier::external_body]
fn decode_alt_name_texts(der: &[u8]) -> (r: Vec<Option<GeneralNameValue>>)
    ensures
        r@.len() == x509_alt_names(der@).len(),
        forall|i: int|
            0 <= i < r@.len() ==> if is_text_name(#[trigger] x509_alt_names(der@)[i]) {
                r@[i] matches Some(g) && g@ == x509_alt_names(der@)[i]
            } else {
                r@[i] is None
            },
{
    let c = match x509_parser::parse_x509_certificate(der) { Ok((_, c)) => c, Err(_) => return Vec::new() };
    let ext = match c.tbs_certificate.subject_alternative_name() { Ok(Some(e)) => e, _ => return Vec::new() };
    ext.value.general_names.iter().map(|g| match g {
        GeneralName::DNSName(s) => Some(GeneralNameValue::DNSName(s.to_string())),
        GeneralName::RFC822Name(s) => Some(GeneralNameValue::RFC822Name(s.to_string())),
        GeneralName::URI(s) => Some(GeneralNameValue::URI(s.to_string())),
        GeneralName::DirectoryName(d) => Some(GeneralNameValue::DirectoryName(d.to_string())),
        _ => None,
    }).collect()
}

/// Trusted wrapper for `TbsCertificate::subject_alternative_name` on the
/// certificate in `der`, converting the names of the other kinds (IP
/// address, other-name, registered ID, X.400 address, EDI party name) and
/// leaving `None` in place of those given as text; by its view, each entry
/// is the named entry of its position.
#[verifier::external_body]
fn decode_alt_name_others(der: &[u8]) -> (r: Vec<Option<GeneralNameValue>>)
    ensures
        r@.len() == x509_alt_names(der@).len(),
        forall|i: int|
            0 <= i < r@.len() ==> if is_text_name(#[trigger] x509_alt_names(der@)[i]) {
                r@[i] is None
            } else {
                r@[i] matches Some(g) && g@ == x509_alt_names(der@)[i]
            },
{
    let c = match x509_parser::parse_x509_certificate(der) { Ok((_, c)) => c, Err(_) => return Vec::new() };
    let ext = match c.tbs_certificate.subject_alternative_name() { Ok(Some(e)) => e, _ => return Vec::new() };
    ext.value.general_names.iter().map(|g| match g {
        GeneralName::IPAddress(b) => Some(GeneralNameValue::IPAddress(b.to_vec())),
        GeneralName::OtherName(o, _) => Some(GeneralNameValue::OtherName(o.to_string())),
        GeneralName::RegisteredID(o) => Some(GeneralNameValue::RegisteredID(o.to_string())),
        GeneralName::X400Address(_) => Some(GeneralNameValue::X400Address),
        GeneralName::EDIPartyName(_) => Some(GeneralNameValue::EDIPartyName),
        _ => None,
    }).collect()
}

/// The subject alternative names of the certificate in `der`, in order.
fn decode_alt_names(der: &[u8]) -> (r: Vec<GeneralNameValue>)
    ensures
        r@.map_values(|g: GeneralNameValue| g@) == x509_alt_names(der@),
{
    let ghost names = x509_alt_names(der@);
    let mut texts = decode_alt_name_texts(der);
    let mut others = decode_alt_name_others(der);
    let ghost t0 = texts@;
    let ghost o0 = others@;
    let n = texts.len();
    let mut out: Vec<GeneralNameValue> = Vec::new();
    let mut k: usize = 0;
    while k < n
        invariant
            n == names.len(),
            t0.len() == n,
            o0.len() == n,
            k <= n,
            texts@ == t0.skip(k as int),
            others@ == o0.skip(k as int),
            forall|i: int|
                0 <= i < n ==> if is_text_name(#[trigger] names[i]) {
                    t0[i] matches Some(g) && g@ == names[i]
                } else {
                    t0[i] is None
                },
            forall|i: int|
                0 <= i < n ==> if is_text_name(#[trigger] names[i]) {
                    o0[i] is None
                } else {
                    o0[i] matches Some(g) && g@ == names[i]
                },
            out@.map_values(|g: GeneralNameValue| g@) == names.take(k as int),
        decreases n - k,
    {
        let t = texts.remove(0);
        let o = others.remove(0);
        assert(t == t0[k as int]);
        assert(o == o0[k as int]);
        let ghost before = out@.map_values(|g: GeneralNameValue| g@);
        proof {
            if is_text_name(names[k as int]) {
                assert(t0[k as int] is Some);
            } else {
                assert(o0[k as int] is Some);
            }
        }
        let g = match t {
            Some(g) => g,
            None => o.unwrap(),
        };
        assert(g@ == names[k as int]);
        out.push(g);
        assert(out@.map_values(|g: GeneralNameValue| g@) =~= before.push(names[k as int]));
        assert(names.take(k + 1) =~= names.take(k as int).push(names[k as int]));
        k = k + 1;
        assert(texts@ =~= t0.skip(k as int));
        assert(others@ =~= o0.skip(k as int));
    }
    assert(names.take(n as int) =~= names);
    out
}

/// Name for the extensions of the certificate in `der`, in order, as
/// `TbsCertificate::extensions` lists them: each one's OID as text and its
/// critical flag; empty when the certificate cannot be read.
pub uninterp spec fn x509_extension_list(der: Seq<u8>) -> Seq<(Seq<char>, bool)>;

/// Trusted wrapper for `TbsCertificate::extensions` on the certificate in
/// `der`; its result, by its view, is the named result on `der`.
#[verifier::external_body]
fn decode_extensions(der: &[u8]) -> (r: Vec<(String, bool)>)
    ensures
        r@.map_values(|e: (String, bool)| (e.0@, e.1)) == x509_extension_list(der@),
{
    match x509_parser::parse_x509_certificate(der) {
        Ok((_, c)) => c.tbs_certificate.extensions().iter().map(|e| (e.oid.to_string(), e.critical)).collect(),
        Err(_) => Vec::new(),
    }
}

/// Whether `f` holds what the certificate in `der` shows: the bytes
/// themselves, the header `h` the parser read, and the key usage, extended
/// key usage, alternative names and extensions it reads.
pub open spec fn facts_of(
    f: CertFacts,
    der: Seq<u8>,
    h: (Seq<char>, Seq<char>, i64, i64, Seq<u8>, Seq<char>, Seq<char>),
) -> bool {
    &&& f.der@ == der
    &&& f.subject@ == h.0
    &&& f.issuer@ == h.1
    &&& f.not_before == h.2
    &&& f.not_after == h.3
    &&& f.serial@ == h.4
    &&& f.signature_oid@ == h.5
    &&& f.key_oid@ == h.6
    &&& f.key_usage == match x509_key_usage_bits(der) {
        Some(b) => Some(key_usage_of_bits(b)),
        None => None,
    }
    &&& match x509_extended_key_usage(der) {
        Some(t) => f.extended_key_usage matches Some(e) && e@ == t,
        None => f.extended_key_usage is None,
    }
    &&& f.subject_alt_names@.map_values(|g: GeneralNameValue| g@) == x509_alt_names(der)
    &&& f.extensions@.map_values(|e: (String, bool)| (e.0@, e.1)) == x509_extension_list(der)
}

/// A vector holding the bytes of `s`.
fn bytes_of(s: &[u8]) -> (r: Vec<u8>)
    ensures
        r@ == s@,
{
    let mut out: Vec<u8> = Vec::new();
    let mut i: usize = 0;
    while i < s.len()
        invariant
            i <= s@.len(),
            out@ == s@.take(i as int),
        decreases s@.len() - i,
    {
        out.push(s[i]);
        i = i + 1;
        assert(out@ =~= s@.take(i as int));
    }
    assert(s@.take(s@.len() as int) =~= s@);
    out
}

/// Decode a DER certificate. It fails, with `parse failed: ` before the
/// parser's message, exactly when the parser cannot read it.
pub fn decode_cert(der: &[u8]) -> (r: Result<CertFacts, String>)
    ensures
        match x509_header(der@) {
            Ok(h) => r matches Ok(f) && facts_of(f, der@, h),
            Err(m) => r matches Err(e) && e@ == "parse failed: "@ + m,
        },
{
    match decode_header(der) {
        Err(e) => {
            proof {
                reveal_strlit("parse failed: ");
            }
            Err(concat2("parse failed: ", e.as_str()))
        },
        Ok((subject, issuer, not_before, not_after, serial, signature_oid, key_oid)) => {
            let key_usage = match decode_key_usage_bits(der) {
                Some(b) => Some(key_usage_from_bits(b)),
                None => None,
            };
            let facts = CertFacts {
                der: bytes_of(der),
                subject,
                issuer,
                not_before,
                not_after,
                serial,
                signature_oid,
                key_oid,
                key_usage,
                extended_key_usage: decode_extended_key_usage(der),
                subject_alt_names: decode_alt_names(der),
                extensions: decode_extensions(der),
            };
            Ok(facts)
        },
    }
}

/// The JSON summary of the DER certificate read from `path`, at `now`
/// (Unix seconds). It fails as `decode_cert` does; otherwise it is the
/// summary of the facts the certificate shows.
pub fn parse_cert_to_json(der: &[u8], path: &str, now: i64) -> (r: Result<JsonValue, String>)
    ensures
        match x509_header(der@) {
            Ok(h) => r matches Ok(j) && exists|f: CertFacts|
                #![trigger facts_of(f, der@, h)]
                facts_of(f, der@, h) && j@ == cert_json_spec(f, path@, now),
            Err(m) => r matches Err(e) && e@ == "parse failed: "@ + m,
        },
{
    match decode_cert(der) {
        Ok(f) => {
            let j = cert_to_json(&f, path, now);
            proof {
                if let Ok(h) = x509_header(der@) {
                    assert(facts_of(f, der@, h));
                }
            }
            Ok(j)
        },
        Err(e) => Err(e),
    }
}

} // verus!

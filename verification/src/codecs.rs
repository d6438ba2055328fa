//! Encodings and digests computed by outside crates, behind trusted wrappers.

use vstd::prelude::*;
use base64::Engine;
use sha2::Digest;

verus! {

/// Name for what `base64::engine::general_purpose::STANDARD.decode` returns on
/// the UTF-8 bytes of `text`: the decoded bytes, or the `Display` text of the
/// decode error.
pub uninterp spec fn base64_standard_decode(text: Seq<char>) -> Result<Seq<u8>, Seq<char>>;

/// Trusted wrapper for `base64::Engine::decode` with the standard (padded)
/// alphabet. Its result is the named result of that call on `text`; what the
/// decoder accepts is not restated here.
#[verifier::external_body]
pub(crate) fn base64_decode(text: &str) -> (r: Result<Vec<u8>, String>)
    ensures
        match base64_standard_decode(text@) {
            Ok(bytes) => r matches Ok(v) && v@ == bytes,
            Err(msg) => r matches Err(e) && e@ == msg,
        },
{
    match base64::engine::general_purpose::STANDARD.decode(text) {
        Ok(bytes) => Ok(bytes),
        Err(e) => Err(e.to_string()),
    }
}

/// Name for what `base64::engine::general_purpose::STANDARD.encode` writes
/// for `data`.
pub uninterp spec fn base64_standard_encode(data: Seq<u8>) -> Seq<char>;

/// Trusted wrapper for `base64::Engine::encode` with the standard (padded)
/// alphabet; its text is the named result of that call on `data`.
#[verifier::external_body]
pub(crate) fn base64_encode(data: &[u8]) -> (r: String)
    ensures
        r@ == base64_standard_encode(data@),
{
    base64::engine::general_purpose::STANDARD.encode(data)
}

/// Value of an ASCII hex digit byte.
pub open spec fn hex_digit_value(b: u8) -> int {
    if 0x30 <= b <= 0x39 {
        b - 0x30
    } else if 0x41 <= b <= 0x46 {
        b - 0x41 + 10
    } else {
        b - 0x61 + 10
    }
}

/// Whether a byte is an ASCII hex digit (either case).
pub open spec fn is_hex_byte(b: u8) -> bool {
    (0x30 <= b <= 0x39) || (0x41 <= b <= 0x46) || (0x61 <= b <= 0x66)
}

/// Whether `hex::decode` accepts `bytes`: an even number of hex digits.
pub open spec fn hex_decodable(bytes: Seq<u8>) -> bool {
    bytes.len() % 2 == 0 && forall|i: int| 0 <= i < bytes.len() ==> is_hex_byte(#[trigger] bytes[i])
}

/// The bytes `hex::decode` yields from `bytes` (when decodable).
pub open spec fn hex_decoded(bytes: Seq<u8>) -> Seq<u8> {
    Seq::new(
        bytes.len() / 2,
        |i: int| (hex_digit_value(bytes[2 * i]) * 16 + hex_digit_value(bytes[2 * i + 1])) as u8,
    )
}

/// Name for the `Display` text of the `hex::FromHexError` that
/// `hex::decode` reports for `text`.
pub uninterp spec fn hex_error_text(text: Seq<char>) -> Seq<char>;

/// Trusted wrapper for `hex::decode` on the UTF-8 bytes of `text`: succeeds
/// exactly on an even number of hex digits (either case) and yields one byte
/// per digit pair, high nibble first; on failure it gives the error's
/// `Display` text, by name (its wording is the crate's).
#[verifier::external_body]
pub(crate) fn hex_decode(text: &str) -> (r: Result<Vec<u8>, String>)
    ensures
        r is Ok <==> hex_decodable(vstd::utf8::encode_utf8(text@)),
        r matches Ok(v) ==> v@ == hex_decoded(vstd::utf8::encode_utf8(text@)),
        r matches Err(e) ==> e@ == hex_error_text(text@),
{
    hex::decode(text).map_err(|e| e.to_string())
}

/// Lower-case hex digit for a nibble.
pub open spec fn hex_char(n: nat) -> char {
    if n < 10 {
        ((n + 0x30) as u32) as char
    } else {
        ((n - 10 + 0x61) as u32) as char
    }
}

/// Lower-case hex text of `bytes`, two digits per byte.
pub open spec fn hex_text(bytes: Seq<u8>) -> Seq<char>
    decreases bytes.len(),
{
    if bytes.len() == 0 {
        Seq::empty()
    } else {
        hex_text(bytes.drop_last()).push(hex_char((bytes.last() / 16) as nat)).push(
            hex_char((bytes.last() % 16) as nat),
        )
    }
}

pub(crate) fn hex_digit(n: u8) -> (r: &'static str)
    requires
        n < 16,
    ensures
        r@ == seq![hex_char(n as nat)],
{
    proof {
        reveal_strlit("0");
        reveal_strlit("1");
        reveal_strlit("2");
        reveal_strlit("3");
        reveal_strlit("4");
        reveal_strlit("5");
        reveal_strlit("6");
        reveal_strlit("7");
        reveal_strlit("8");
        reveal_strlit("9");
        reveal_strlit("a");
        reveal_strlit("b");
        reveal_strlit("c");
        reveal_strlit("d");
        reveal_strlit("e");
        reveal_strlit("f");
    }
    if n == 0 {
        "0"
    } else if n == 1 {
        "1"
    } else if n == 2 {
        "2"
    } else if n == 3 {
        "3"
    } else if n == 4 {
        "4"
    } else if n == 5 {
        "5"
    } else if n == 6 {
        "6"
    } else if n == 7 {
        "7"
    } else if n == 8 {
        "8"
    } else if n == 9 {
        "9"
    } else if n == 10 {
        "a"
    } else if n == 11 {
        "b"
    } else if n == 12 {
        "c"
    } else if n == 13 {
        "d"
    } else if n == 14 {
        "e"
    } else {
        "f"
    }
}

/// Lower-case hex text of `bytes` (as `hex::encode` writes it).
pub fn hex_encode(bytes: &[u8]) -> (r: String)
    ensures
        r@ == hex_text(bytes@),
{
    let mut s = String::new();
    let mut i: usize = 0;
    proof {
        assert(bytes@.take(0) =~= Seq::<u8>::empty());
    }
    while i < bytes.len()
        invariant
            i <= bytes@.len(),
            s@ == hex_text(bytes@.take(i as int)),
        decreases bytes@.len() - i,
    {
        let b = bytes[i];
        s.append(hex_digit(b / 16));
        s.append(hex_digit(b % 16));
        proof {
            assert(bytes@.take(i + 1).drop_last() =~= bytes@.take(i as int));
        }
        i = i + 1;
    }
    proof {
        assert(bytes@.take(bytes@.len() as int) =~= bytes@);
    }
    s
}

/// Name for the SHA-256 digest of `data` as `sha2::Sha256::digest` computes it.
pub uninterp spec fn sha256_digest(data: Seq<u8>) -> Seq<u8>;

/// Trusted wrapper for `sha2::Sha256::digest`: the 32-byte SHA-256 digest of `data`.
#[verifier::external_body]
pub(crate) fn sha256(data: &[u8]) -> (r: Vec<u8>)
    ensures
        r@ == sha256_digest(data@),
        r@.len() == 32,
{
    sha2::Sha256::digest(data).to_vec()
}

/// Name for the BLAKE3 hash of `data` as `blake3::hash` computes it.
pub uninterp spec fn blake3_digest(data: Seq<u8>) -> Seq<u8>;

/// Trusted wrapper for `blake3::hash`: the 32-byte BLAKE3 hash of `data`.
#[verifier::external_body]
pub(crate) fn blake3_hash(data: &[u8]) -> (r: Vec<u8>)
    ensures
        r@ == blake3_digest(data@),
        r@.len() == 32,
{
    blake3::hash(data).as_bytes().to_vec()
}

/// Name for what `chrono::DateTime::from_timestamp(secs, 0)` formatted with
/// `to_rfc3339_opts(SecondsFormat::Secs, true)` gives: `None` when `secs` is
/// outside chrono's range.
pub uninterp spec fn rfc3339_of_unix(secs: i64) -> Option<Seq<char>>;

/// Trusted wrapper for chrono's timestamp conversion and RFC 3339 formatting
/// (UTC, whole seconds, `Z` suffix). Its result is the named result on `secs`.
#[verifier::external_body]
pub(crate) fn unix_to_rfc3339(secs: i64) -> (r: Option<String>)
    ensures
        match rfc3339_of_unix(secs) {
            Some(t) => r matches Some(s) && s@ == t,
            None => r is None,
        },
{
    chrono::DateTime::from_timestamp(secs, 0).map(
        |dt| dt.to_rfc3339_opts(chrono::SecondsFormat::Secs, true),
    )
}

} // verus!

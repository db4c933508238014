//! Keyed lookup keys: an HMAC-SHA256 tag of a query under the service secret.
use vstd::prelude::*;
use vstd::utf8::*;

verus! {

/// HMAC-SHA256 of `message` under `key`.
pub uninterp spec fn hmac_sha256_of(key: Seq<u8>, message: Seq<u8>) -> Seq<u8>;

/// Relies on ring::hmac::sign with an HMAC_SHA256 key made from `key`: the
/// 32-byte tag.
#[verifier::external_body]
fn hmac_sha256(key: &[u8], message: &[u8]) -> (r: Vec<u8>)
    ensures
        r@ == hmac_sha256_of(key@, message@),
        r@.len() == 32,
{
    let signing_key = ring::hmac::Key::new(ring::hmac::HMAC_SHA256, key);
    ring::hmac::sign(&signing_key, message).as_ref().to_vec()
}

pub open spec fn hex_digit(n: int) -> char {
    if n < 10 {
        ('0' as int + n) as char
    } else {
        ('a' as int + n - 10) as char
    }
}

/// Lower-case hexadecimal text of `bytes`, two digits per byte, high digit first.
pub open spec fn hex_lower(bytes: Seq<u8>) -> Seq<char>
    decreases bytes.len(),
{
    if bytes.len() == 0 {
        Seq::empty()
    } else {
        hex_lower(bytes.drop_last()) + seq![
            hex_digit(bytes.last() as int / 16),
            hex_digit(bytes.last() as int % 16),
        ]
    }
}

/// Relies on data_encoding::HEXLOWER.encode: lower-case hexadecimal, two digits
/// per byte, most significant first.
#[verifier::external_body]
fn hex_encode(bytes: &[u8]) -> (r: String)
    ensures
        r@ == hex_lower(bytes@),
{
    data_encoding::HEXLOWER.encode(bytes)
}

/// The tag of a query, used as its cache key.
#[derive(Clone, Debug)]
pub struct HashKey {
    pub tag: Vec<u8>,
}

impl HashKey {
    /// The HMAC-SHA256 tag of `query` under `secret`.
    pub fn new(query: &str, secret: &str) -> (r: HashKey)
        ensures
            r.tag@ == hmac_sha256_of(encode_utf8(secret@), encode_utf8(query@)),
            r.tag@.len() == 32,
    {
        HashKey { tag: hmac_sha256(secret.as_bytes(), query.as_bytes()) }
    }

    /// The tag in lower-case hexadecimal.
    pub fn as_str(&self) -> (r: String)
        ensures
            r@ == hex_lower(self.tag@),
    {
        hex_encode(self.tag.as_slice())
    }
}

} // verus!

//! Salted, iterated password credentials: derivation and verification.
use vstd::prelude::*;
use vstd::utf8::*;
use crate::errors::{ErrJson, LoginError};

verus! {

/// Iteration count of the key derivation.
pub const PBKDF2_ITERATIONS: u32 = 20_000;

/// Length in bytes of a derived credential (the SHA-256 output length).
pub const CREDENTIAL_LEN: usize = 32;

/// Length of the stored (base64) text of a credential.
pub const CREDENTIAL_TEXT_LEN: usize = 44;

/// PBKDF2-HMAC-SHA256 with `iterations` rounds and a 32-byte output.
pub uninterp spec fn pbkdf2_digest(iterations: u32, salt: Seq<u8>, secret: Seq<u8>) -> Seq<u8>;

/// The standard base64 text (with padding) of `bytes`.
pub uninterp spec fn base64_text_of(bytes: Seq<u8>) -> Seq<char>;

/// The bytes whose standard base64 text is `text`, or `None` where `text` is no such text.
pub uninterp spec fn base64_bytes_of(text: Seq<char>) -> Option<Seq<u8>>;

#[verifier::external_type_specification]
#[verifier::external_body]
pub struct ExDecodeError(base64::DecodeError);

/// Relies on ring::pbkdf2::derive with PBKDF2_HMAC_SHA256: fills an output of the
/// digest's length (32 bytes) with the derived key.
#[verifier::external_body]
fn pbkdf2_derive(iterations: u32, salt: &[u8], secret: &[u8]) -> (r: Vec<u8>)
    requires
        iterations > 0,
    ensures
        r@ == pbkdf2_digest(iterations, salt@, secret@),
        r@.len() == CREDENTIAL_LEN,
{
    let mut out = [0u8; ring::digest::SHA256_OUTPUT_LEN];
    let rounds = std::num::NonZeroU32::new(iterations).unwrap();
    ring::pbkdf2::derive(ring::pbkdf2::PBKDF2_HMAC_SHA256, rounds, salt, secret, &mut out);
    out.to_vec()
}

/// Relies on ring::pbkdf2::verify with PBKDF2_HMAC_SHA256: on a 32-byte previous
/// value it re-derives one block and compares the two in constant time.
#[verifier::external_body]
fn pbkdf2_verify(iterations: u32, salt: &[u8], secret: &[u8], previous: &[u8]) -> (r: bool)
    requires
        iterations > 0,
        previous@.len() == CREDENTIAL_LEN,
    ensures
        r == (previous@ == pbkdf2_digest(iterations, salt@, secret@)),
{
    let rounds = std::num::NonZeroU32::new(iterations).unwrap();
    ring::pbkdf2::verify(ring::pbkdf2::PBKDF2_HMAC_SHA256, rounds, salt, secret, previous).is_ok()
}

/// Relies on base64::encode (standard alphabet, padded): four characters for each
/// started group of three bytes, which base64::decode turns back into the same bytes.
#[verifier::external_body]
fn base64_encode(bytes: &[u8]) -> (r: String)
    ensures
        r@ == base64_text_of(bytes@),
        base64_bytes_of(r@) == Some(bytes@),
        r@.len() == 4 * ((bytes@.len() + 2) / 3),
{
    base64::encode(bytes)
}

/// Relies on base64::decode (standard alphabet, padded).
#[verifier::external_body]
fn base64_decode(text: &str) -> (r: Result<Vec<u8>, base64::DecodeError>)
    ensures
        r is Ok <==> base64_bytes_of(text@) is Some,
        r matches Ok(v) ==> base64_bytes_of(text@) == Some(v@),
{
    base64::decode(text)
}

/// The raw derived key of `password` under `salt`.
pub open spec fn derived_key(salt: Seq<char>, password: Seq<char>) -> Seq<u8> {
    pbkdf2_digest(PBKDF2_ITERATIONS, encode_utf8(salt), encode_utf8(password))
}

/// The stored (base64) form of the credential of `password` under `salt`.
pub open spec fn credential_of(salt: Seq<char>, password: Seq<char>) -> Seq<char> {
    base64_text_of(derived_key(salt, password))
}

/// Whether `stored` decodes to a credential-sized key equal to that of `attempt` under `salt`.
pub open spec fn credential_matches(salt: Seq<char>, attempt: Seq<char>, stored: Seq<char>) -> bool {
    match base64_bytes_of(stored) {
        Some(key) => key.len() == CREDENTIAL_LEN && key == derived_key(salt, attempt),
        None => false,
    }
}

/// Derives the stored credential of `password` with `salt` (the owner's user id).
/// The credential verifies exactly the passwords whose derived key equals that of
/// `password`: the password itself, and no other save a key collision.
pub fn generate_credential(salt: &str, password: &str) -> (r: String)
    ensures
        r@ == credential_of(salt@, password@),
        r@.len() == CREDENTIAL_TEXT_LEN,
        base64_bytes_of(r@) == Some(derived_key(salt@, password@)),
        forall|attempt: Seq<char>|
            #[trigger] credential_matches(salt@, attempt, r@) <==> derived_key(salt@, attempt)
                == derived_key(salt@, password@),
{
    let key = pbkdf2_derive(PBKDF2_ITERATIONS, salt.as_bytes(), password.as_bytes());
    base64_encode(key.as_slice())
}

/// Checks `attempted` against the stored credential under `salt`.
/// A stored value that is no base64 text is a decode fault, told apart from a
/// wrong password.
pub fn check_credential(salt: &str, attempted: &str, stored: &str) -> (r: Result<(), LoginError>)
    ensures
        r is Ok <==> credential_matches(salt@, attempted@, stored@),
        r matches Err(e) ==> (base64_bytes_of(stored@) is None <==> e is DecodeError),
        r matches Err(e) ==> (e is DecodeError || e is WrongPassword),
{
    match base64_decode(stored) {
        Err(_) => Err(LoginError::DecodeError(ErrJson::new("Password could not be decoded!"))),
        Ok(key) => {
            if key.len() != CREDENTIAL_LEN {
                Err(LoginError::WrongPassword(ErrJson::new("Wrong password!")))
            } else if pbkdf2_verify(
                PBKDF2_ITERATIONS,
                salt.as_bytes(),
                attempted.as_bytes(),
                key.as_slice(),
            ) {
                Ok(())
            } else {
                Err(LoginError::WrongPassword(ErrJson::new("Wrong password!")))
            }
        },
    }
}

/// Whether `attempted` matches the stored credential; false on a malformed one.
pub fn verify_credential(salt: &str, attempted: &str, stored: &str) -> (r: bool)
    ensures
        r == credential_matches(salt@, attempted@, stored@),
{
    check_credential(salt, attempted, stored).is_ok()
}

/// Derivation is deterministic: two derivations from the same salt and password agree.
pub proof fn lemma_credential_deterministic(
    salt: Seq<char>,
    password: Seq<char>,
    first: Seq<char>,
    second: Seq<char>,
)
    requires
        first == credential_of(salt, password),
        second == credential_of(salt, password),
    ensures
        first == second,
{
}

} // verus!

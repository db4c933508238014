use user_auth::credential::{check_credential, generate_credential, verify_credential};
use user_auth::errors::LoginError;
use user_auth::hashkey::HashKey;
use user_auth::user::{generate_nano_user_id, User};

#[test]
fn derivation_is_deterministic() {
    let a = generate_credential("u1234abcd5678", "pw1");
    let b = generate_credential("u1234abcd5678", "pw1");
    assert_eq!(a, b);
}

#[test]
fn credential_is_base64_of_32_bytes() {
    let c = generate_credential("salt", "password");
    assert_eq!(c.len(), 44);
    assert!(c.ends_with('='));
    assert_ne!(c, "password");
    assert_ne!(c, generate_credential("other-salt", "password"));
}

#[test]
fn credential_verifies_own_password_only() {
    let c = generate_credential("u1", "pw1");
    assert!(verify_credential("u1", "pw1", &c));
    assert!(!verify_credential("u1", "pw2", &c));
    assert!(!verify_credential("u2", "pw1", &c));
}

#[test]
fn malformed_stored_credential_is_a_decode_fault() {
    assert!(matches!(check_credential("u1", "pw1", "not base64!"), Err(LoginError::DecodeError(_))));
    let c = generate_credential("u1", "pw1");
    assert!(matches!(check_credential("u1", "pw2", &c), Err(LoginError::WrongPassword(_))));
    // valid base64 of the wrong length never matches
    assert!(matches!(check_credential("u1", "pw1", "AAAA"), Err(LoginError::WrongPassword(_))));
    assert!(check_credential("u1", "pw1", &c).is_ok());
}

#[test]
fn user_password_hash_uses_id_as_salt() {
    let u = User::with_id(String::from("uabc"), String::from("a@x.com"), "pw", None, None);
    assert_eq!(u.password_hash, generate_credential("uabc", "pw"));
    assert_eq!(u.generate_new_password_hash("pw2"), generate_credential("uabc", "pw2"));
    assert!(u.verify_credentials("pw").is_ok());
    assert!(matches!(u.verify_credentials("bad"), Err(LoginError::WrongPassword(_))));
}

#[test]
fn generates_nano_user_id_well() {
    let id = generate_nano_user_id();
    assert_eq!(id.len(), 12 as usize);
}

#[test]
fn new_user_ids_are_prefixed_and_fresh() {
    let a = User::new(String::from("a@x.com"), String::from("pw"), None, None);
    let b = User::new(String::from("b@x.com"), String::from("pw"), None, None);
    assert_eq!(a.id.len(), 13);
    assert!(a.id.starts_with('u'));
    assert!(a.id[1..].chars().all(|c| "123456789abcdefghkmnpqrstvwxzy".contains(c)));
    assert_ne!(a.id, b.id);
    assert_eq!(a.password_hash, generate_credential(&a.id, "pw"));
}

#[test]
fn hash_key_is_hex_hmac_sha256() {
    let k = HashKey::new("what do ya want for nothing?", "Jefe");
    assert_eq!(
        k.as_str(),
        "5bdcc146bf60754e6a042426089575c75a003f089d2739839dec58b964ec3843"
    );
}

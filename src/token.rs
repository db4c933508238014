//! Signed, expiring session tokens carrying identity claims.
use vstd::prelude::*;
use vstd::string::*;
use vstd::utf8::*;
use crate::clock::now_timestamp;
use crate::errors::{ErrJson, LoginError};
use crate::role::{UserRole, role_name, role_named, lemma_role_name_parses};
use crate::text::{format_i64, parse_i64, parse_i64_spec, signed_decimal, lemma_signed_decimal_parses};

verus! {

/// A token's lifetime: thirty days, in seconds.
pub const TOKEN_LIFETIME_SECS: i64 = 2_592_000;

/// Process-wide token settings, fixed at start-up.
#[derive(Clone, Debug)]
pub struct TokenConfig {
    /// The shared signing secret.
    pub secret: String,
    /// The issuer written into every token.
    pub issuer: String,
}

/// The key bytes that sign and check tokens under `cfg`.
pub open spec fn secret_key(cfg: TokenConfig) -> Seq<u8> {
    encode_utf8(cfg.secret@)
}

/// The payload of a session token.
#[derive(Clone, Debug)]
pub struct Claims {
    /// issuer
    pub iss: String,
    /// audience: the holder's role
    pub aud: UserRole,
    /// subject: the user id
    pub sub: String,
    /// issued at, in seconds since the epoch
    pub iat: i64,
    /// expiry, in seconds since the epoch
    pub exp: i64,
    /// the holder's e-mail
    pub email: String,
}

pub struct ClaimsView {
    pub iss: Seq<char>,
    pub aud: UserRole,
    pub sub: Seq<char>,
    pub iat: i64,
    pub exp: i64,
    pub email: Seq<char>,
}

impl View for Claims {
    type V = ClaimsView;

    open spec fn view(&self) -> ClaimsView {
        ClaimsView {
            iss: self.iss@,
            aud: self.aud,
            sub: self.sub@,
            iat: self.iat,
            exp: self.exp,
            email: self.email@,
        }
    }
}

/// The role a token carries for an optional account role (plain user by default).
pub open spec fn role_or_user(r: Option<UserRole>) -> UserRole {
    match r {
        Some(x) => x,
        None => UserRole::USER,
    }
}

/// The claims issued at `now` for the given identity.
pub open spec fn issued_claims(
    issuer: Seq<char>,
    email: Seq<char>,
    user_id: Seq<char>,
    role: Option<UserRole>,
    now: i64,
) -> ClaimsView {
    ClaimsView {
        iss: issuer,
        aud: role_or_user(role),
        sub: user_id,
        iat: now,
        exp: (now + TOKEN_LIFETIME_SECS) as i64,
        email,
    }
}

/// A claim as read back from a token: the text of a string, the decimal text of
/// a number, `None` for any other JSON value.
pub type ClaimText = Option<Seq<char>>;

/// The claims as they are signed: four string claims and the two timestamps as numbers.
pub open spec fn claims_payload(c: ClaimsView) -> Map<Seq<char>, ClaimText> {
    Map::<Seq<char>, ClaimText>::empty().insert("aud"@, Some(role_name(c.aud))).insert(
        "email"@,
        Some(c.email),
    ).insert("exp"@, Some(signed_decimal(c.exp as int))).insert(
        "iat"@,
        Some(signed_decimal(c.iat as int)),
    ).insert("iss"@, Some(c.iss)).insert("sub"@, Some(c.sub))
}

/// Whether the claim `k` is present with a text.
pub open spec fn has_text(m: Map<Seq<char>, ClaimText>, k: Seq<char>) -> bool {
    m.contains_key(k) && m[k] is Some
}

/// The claims a signed map stands for: all six keys present with a text, a known
/// role name and decimal timestamps; other keys are ignored.
pub open spec fn claims_from_payload(m: Map<Seq<char>, ClaimText>) -> Option<ClaimsView> {
    if has_text(m, "aud"@) && has_text(m, "email"@) && has_text(m, "exp"@) && has_text(m, "iat"@)
        && has_text(m, "iss"@) && has_text(m, "sub"@) && role_named(m["aud"@]->Some_0) is Some
        && parse_i64_spec(m["exp"@]->Some_0) is Some && parse_i64_spec(m["iat"@]->Some_0) is Some {
        Some(
            ClaimsView {
                iss: m["iss"@]->Some_0,
                aud: role_named(m["aud"@]->Some_0).unwrap(),
                sub: m["sub"@]->Some_0,
                iat: parse_i64_spec(m["iat"@]->Some_0).unwrap(),
                exp: parse_i64_spec(m["exp"@]->Some_0).unwrap(),
                email: m["email"@]->Some_0,
            },
        )
    } else {
        None
    }
}

/// String claims, a later pair overriding an earlier one with the same key.
pub open spec fn text_claims(s: Seq<(String, String)>) -> Map<Seq<char>, ClaimText>
    decreases s.len(),
{
    if s.len() == 0 {
        Map::empty()
    } else {
        text_claims(s.drop_last()).insert(s.last().0@, Some(s.last().1@))
    }
}

/// Number claims added over `base`, each read back as its decimal text.
pub open spec fn number_claims(base: Map<Seq<char>, ClaimText>, s: Seq<(String, i64)>) -> Map<
    Seq<char>,
    ClaimText,
>
    decreases s.len(),
{
    if s.len() == 0 {
        base
    } else {
        number_claims(base, s.drop_last()).insert(
            s.last().0@,
            Some(signed_decimal(s.last().1 as int)),
        )
    }
}

/// Claims as read back, a later pair overriding an earlier one with the same key.
pub open spec fn read_claims(s: Seq<(String, Option<String>)>) -> Map<Seq<char>, ClaimText>
    decreases s.len(),
{
    if s.len() == 0 {
        Map::empty()
    } else {
        read_claims(s.drop_last()).insert(
            s.last().0@,
            match s.last().1 {
                Some(t) => Some(t@),
                None => None,
            },
        )
    }
}

/// The claims that jsonwebtoken::decode reads from `token` when its HS256 signature
/// checks under `secret` (expiry left to the caller): each string claim as its text,
/// each number claim as serde_json's decimal text of it, any other value as `None`;
/// `None` where decoding fails.
pub uninterp spec fn jwt_claims_of(token: Seq<char>, secret: Seq<u8>) -> Option<
    Map<Seq<char>, ClaimText>,
>;

#[verifier::external_type_specification]
#[verifier::external_body]
pub struct ExJwtError(jsonwebtoken::errors::Error);

/// Relies on jsonwebtoken::encode with the default (HS256) header and an HMAC
/// key: serialising a JSON map and signing it with HMAC cannot fail, and the
/// signature covers the serialised claims, so jsonwebtoken::decode under the same
/// secret reads the same claims back (an `i64` number as its decimal text).
#[verifier::external_body]
fn jwt_encode(texts: &Vec<(String, String)>, numbers: &Vec<(String, i64)>, secret: &[u8]) -> (r:
    Result<String, jsonwebtoken::errors::Error>)
    ensures
        r is Ok,
        r matches Ok(t) ==> jwt_claims_of(t@, secret@) == Some(
            number_claims(text_claims(texts@), numbers@),
        ),
{
    let mut payload = serde_json::Map::new();
    for (k, v) in texts {
        payload.insert(k.clone(), serde_json::Value::from(v.clone()));
    }
    for (k, n) in numbers {
        payload.insert(k.clone(), serde_json::Value::from(*n));
    }
    let key = jsonwebtoken::EncodingKey::from_secret(secret);
    jsonwebtoken::encode(&jsonwebtoken::Header::default(), &payload, &key)
}

/// Relies on jsonwebtoken::decode (HS256 only, `exp` not validated): checks the
/// signature under `secret` and reads the claims, strings as their text and
/// numbers as their decimal text.
#[verifier::external_body]
fn jwt_decode(token: &str, secret: &[u8]) -> (r: Result<
    Vec<(String, Option<String>)>,
    jsonwebtoken::errors::Error,
>)
    ensures
        r is Ok <==> jwt_claims_of(token@, secret@) is Some,
        r matches Ok(v) ==> jwt_claims_of(token@, secret@) == Some(read_claims(v@)),
{
    let validation = jsonwebtoken::Validation { validate_exp: false, ..Default::default() };
    let key = jsonwebtoken::DecodingKey::from_secret(secret);
    let claims = jsonwebtoken::decode::<serde_json::Map<String, serde_json::Value>>(token, &key, &validation);
    claims.map(|data| data.claims.into_iter().map(|(k, v)| (k, match v {
        serde_json::Value::String(s) => Some(s),
        serde_json::Value::Number(n) => Some(n.to_string()),
        serde_json::Value::Null => None,
        serde_json::Value::Bool(_) => None,
        serde_json::Value::Array(_) => None,
        serde_json::Value::Object(_) => None,
    })).collect())
}

/// The claims carried by a token whose signature checks under `secret`.
pub open spec fn decoded_claims(token: Seq<char>, secret: Seq<u8>) -> Option<ClaimsView> {
    match jwt_claims_of(token, secret) {
        Some(m) => claims_from_payload(m),
        None => None,
    }
}

/// The claims a token is honoured for at time `now`: signed under `secret` and not expired.
pub open spec fn valid_claims(token: Seq<char>, secret: Seq<u8>, now: i64) -> Option<ClaimsView> {
    match decoded_claims(token, secret) {
        Some(c) => if c.exp > now {
            Some(c)
        } else {
            None
        },
        None => None,
    }
}

proof fn lemma_claim_keys_distinct()
    ensures
        "aud"@ != "email"@,
        "aud"@ != "exp"@,
        "aud"@ != "iat"@,
        "aud"@ != "iss"@,
        "aud"@ != "sub"@,
        "email"@ != "exp"@,
        "email"@ != "iat"@,
        "email"@ != "iss"@,
        "email"@ != "sub"@,
        "exp"@ != "iat"@,
        "exp"@ != "iss"@,
        "exp"@ != "sub"@,
        "iat"@ != "iss"@,
        "iat"@ != "sub"@,
        "iss"@ != "sub"@,
{
    reveal_strlit("aud");
    reveal_strlit("email");
    reveal_strlit("exp");
    reveal_strlit("iat");
    reveal_strlit("iss");
    reveal_strlit("sub");
    assert("aud"@[0] != "email"@[0]);
    assert("aud"@[0] != "exp"@[0]);
    assert("aud"@[0] != "iat"@[0]);
    assert("aud"@[0] != "iss"@[0]);
    assert("aud"@[0] != "sub"@[0]);
    assert("email"@.len() != "exp"@.len());
    assert("email"@[0] != "iat"@[0]);
    assert("email"@[0] != "iss"@[0]);
    assert("email"@[0] != "sub"@[0]);
    assert("exp"@[0] != "iat"@[0]);
    assert("exp"@[0] != "iss"@[0]);
    assert("exp"@[0] != "sub"@[0]);
    assert("iat"@[1] != "iss"@[1]);
    assert("iat"@[0] != "sub"@[0]);
    assert("iss"@[0] != "sub"@[0]);
}

/// Reading back the signed map of some claims gives those claims.
pub proof fn lemma_payload_round_trip(c: ClaimsView)
    ensures
        claims_from_payload(claims_payload(c)) == Some(c),
{
    lemma_claim_keys_distinct();
    lemma_role_name_parses(c.aud);
    lemma_signed_decimal_parses(c.exp);
    lemma_signed_decimal_parses(c.iat);
    let m = claims_payload(c);
    assert(m["aud"@] == Some(role_name(c.aud)));
    assert(m["exp"@] == Some(signed_decimal(c.exp as int)));
    assert(m["iat"@] == Some(signed_decimal(c.iat as int)));
    assert(m["iss"@] == Some(c.iss));
    assert(m["sub"@] == Some(c.sub));
    assert(m["email"@] == Some(c.email));
}

/// Token round trip: a token signed over the claims issued for an identity
/// decodes, under the same secret and before its expiry, to exactly those claims,
/// so to the same e-mail, user id and role.
pub proof fn lemma_token_round_trip(
    cfg: TokenConfig,
    email: Seq<char>,
    user_id: Seq<char>,
    role: Option<UserRole>,
    now: i64,
    token: Seq<char>,
    later: i64,
)
    requires
        now <= i64::MAX - TOKEN_LIFETIME_SECS,
        jwt_claims_of(token, secret_key(cfg)) == Some(
            claims_payload(issued_claims(cfg.issuer@, email, user_id, role, now)),
        ),
        later < now + TOKEN_LIFETIME_SECS,
    ensures
        valid_claims(token, secret_key(cfg), later) == Some(
            issued_claims(cfg.issuer@, email, user_id, role, now),
        ),
        valid_claims(token, secret_key(cfg), later) matches Some(c) && c.email == email && c.sub
            == user_id && c.aud == role_or_user(role),
{
    lemma_payload_round_trip(issued_claims(cfg.issuer@, email, user_id, role, now));
}

/// Expiry: a token whose signed expiry is not after `now` is never honoured at `now`,
/// and neither is one whose signature does not check.
pub proof fn lemma_expired_token_rejected(token: Seq<char>, secret: Seq<u8>, now: i64)
    requires
        decoded_claims(token, secret) matches Some(c) ==> c.exp <= now,
    ensures
        valid_claims(token, secret, now) is None,
{
}

/// The text of the last claim with key `key`; `None` where it is missing or no text.
fn lookup_claim(pairs: &Vec<(String, Option<String>)>, key: &str) -> (r: Option<String>)
    ensures
        r is Some <==> has_text(read_claims(pairs@), key@),
        r matches Some(v) ==> read_claims(pairs@)[key@] == Some(v@),
{
    let mut found: Option<String> = None;
    let mut i: usize = 0;
    let wanted = String::from_str(key);
    while i < pairs.len()
        invariant
            i <= pairs@.len(),
            wanted@ == key@,
            found is Some <==> has_text(read_claims(pairs@.take(i as int)), key@),
            found matches Some(v) ==> read_claims(pairs@.take(i as int))[key@] == Some(v@),
        decreases pairs@.len() - i,
    {
        assert(pairs@.take(i + 1).drop_last() =~= pairs@.take(i as int));
        if pairs[i].0 == wanted {
            found = match &pairs[i].1 {
                Some(t) => Some(t.clone()),
                None => None,
            };
        }
        i = i + 1;
    }
    assert(pairs@.take(pairs@.len() as int) =~= pairs@);
    found
}

impl Claims {
    /// The claims issued at `now` for the given identity, expiring thirty days later.
    pub fn with_email(
        email: String,
        user_id: String,
        user_role: Option<UserRole>,
        issuer: String,
        now: i64,
    ) -> (r: Claims)
        requires
            now <= i64::MAX - TOKEN_LIFETIME_SECS,
        ensures
            r@ == issued_claims(issuer@, email@, user_id@, user_role, now),
    {
        let aud = match user_role {
            Some(x) => x,
            None => UserRole::USER,
        };
        Claims { iss: issuer, aud, sub: user_id, iat: now, exp: now + TOKEN_LIFETIME_SECS, email }
    }

    /// The claims that are signed: string claims, then the timestamps as numbers.
    pub fn payload(&self) -> (r: (Vec<(String, String)>, Vec<(String, i64)>))
        ensures
            number_claims(text_claims(r.0@), r.1@) == claims_payload(self@),
    {
        let mut texts: Vec<(String, String)> = Vec::new();
        texts.push((String::from_str("aud"), self.aud.as_string()));
        texts.push((String::from_str("email"), self.email.clone()));
        texts.push((String::from_str("iss"), self.iss.clone()));
        texts.push((String::from_str("sub"), self.sub.clone()));
        let mut numbers: Vec<(String, i64)> = Vec::new();
        numbers.push((String::from_str("exp"), self.exp));
        numbers.push((String::from_str("iat"), self.iat));
        proof {
            let t = texts@;
            let n = numbers@;
            assert(t.take(0) =~= Seq::<(String, String)>::empty());
            assert forall|k: int| 0 < k <= 4 implies #[trigger] text_claims(t.take(k)) == text_claims(
                t.take(k - 1),
            ).insert(t[k - 1].0@, Some(t[k - 1].1@)) by {
                assert(t.take(k).drop_last() =~= t.take(k - 1));
            }
            assert(t.take(4) =~= t);
            assert(n.take(0) =~= Seq::<(String, i64)>::empty());
            assert forall|k: int| 0 < k <= 2 implies #[trigger] number_claims(text_claims(t), n.take(k))
                == number_claims(text_claims(t), n.take(k - 1)).insert(
                n[k - 1].0@,
                Some(signed_decimal(n[k - 1].1 as int)),
            ) by {
                assert(n.take(k).drop_last() =~= n.take(k - 1));
            }
            assert(n.take(2) =~= n);
            lemma_claim_keys_distinct();
            assert(number_claims(text_claims(t), n) =~= claims_payload(self@));
        }
        (texts, numbers)
    }

    /// Reads claims as decoded from a token; `None` where a claim is missing or no
    /// text, the role name is unknown or a timestamp is no decimal integer.
    pub fn from_payload(pairs: &Vec<(String, Option<String>)>) -> (r: Option<Claims>)
        ensures
            r is Some <==> claims_from_payload(read_claims(pairs@)) is Some,
            r matches Some(c) ==> claims_from_payload(read_claims(pairs@)) == Some(c@),
    {
        let aud = lookup_claim(pairs, "aud");
        let email = lookup_claim(pairs, "email");
        let exp = lookup_claim(pairs, "exp");
        let iat = lookup_claim(pairs, "iat");
        let iss = lookup_claim(pairs, "iss");
        let sub = lookup_claim(pairs, "sub");
        match (aud, email, exp, iat, iss, sub) {
            (Some(aud), Some(email), Some(exp), Some(iat), Some(iss), Some(sub)) => {
                match (UserRole::from_name(aud.as_str()), parse_i64(exp.as_str()), parse_i64(iat.as_str())) {
                    (Some(role), Some(exp), Some(iat)) => Some(
                        Claims { iss, aud: role, sub, iat, exp, email },
                    ),
                    _ => None,
                }
            },
            _ => None,
        }
    }
}

/// Signs the claims issued at `now` for an identity; signing with the shared
/// secret always succeeds.
pub fn issue_token(
    cfg: &TokenConfig,
    email: String,
    user_id: String,
    user_role: Option<UserRole>,
    now: i64,
) -> (r: Result<String, LoginError>)
    requires
        now <= i64::MAX - TOKEN_LIFETIME_SECS,
    ensures
        r matches Ok(t) ==> jwt_claims_of(t@, secret_key(*cfg)) == Some(
            claims_payload(issued_claims(cfg.issuer@, email@, user_id@, user_role, now)),
        ),
        r matches Ok(t) ==> valid_claims(t@, secret_key(*cfg), now) == Some(
            issued_claims(cfg.issuer@, email@, user_id@, user_role, now),
        ),
        r is Ok,
{
    let claims = Claims::with_email(email, user_id, user_role, cfg.issuer.clone(), now);
    let (texts, numbers) = claims.payload();
    match jwt_encode(&texts, &numbers, cfg.secret.as_str().as_bytes()) {
        Ok(t) => {
            proof {
                lemma_payload_round_trip(claims@);
            }
            Ok(t)
        },
        Err(_) => Err(LoginError::DecodeError(ErrJson::new("Could not sign session token"))),
    }
}

/// Decodes a token presented at time `now`. A bad signature, a malformed payload
/// and an expiry not after `now` all give the same Unauthorized outcome.
pub fn decode_token_at(cfg: &TokenConfig, token: &str, now: i64) -> (r: Result<Claims, LoginError>)
    ensures
        r is Ok <==> valid_claims(token@, secret_key(*cfg), now) is Some,
        r matches Ok(c) ==> valid_claims(token@, secret_key(*cfg), now) == Some(c@),
        r matches Err(e) ==> e is Unauthorized,
{
    let pairs = match jwt_decode(token, cfg.secret.as_str().as_bytes()) {
        Ok(p) => p,
        Err(_) => {
            return Err(LoginError::Unauthorized(ErrJson::new("Invalid session token")));
        },
    };
    match Claims::from_payload(&pairs) {
        None => Err(LoginError::Unauthorized(ErrJson::new("Invalid session token"))),
        Some(c) => {
            if c.exp > now {
                Ok(c)
            } else {
                Err(LoginError::Unauthorized(ErrJson::new("Session token expired")))
            }
        },
    }
}

/// Signs a fresh token for an identity, issued now and expiring thirty days later.
/// The token decodes under the same secret to exactly the identity given. Signing
/// itself cannot fail (see `issue_token`); the only refusal is a clock reading
/// beyond the range of expiry times.
pub fn create_token(
    cfg: &TokenConfig,
    email: String,
    user_id: String,
    user_role: Option<UserRole>,
) -> (r: Result<String, LoginError>)
    ensures
        r matches Ok(t) ==> (decoded_claims(t@, secret_key(*cfg)) matches Some(c) && c.email
            == email@ && c.sub == user_id@ && c.aud == role_or_user(user_role) && c.iss
            == cfg.issuer@ && c.exp == c.iat + TOKEN_LIFETIME_SECS),
        r matches Err(e) ==> e is DecodeError,
{
    let now = now_timestamp();
    if now > i64::MAX - TOKEN_LIFETIME_SECS {
        return Err(LoginError::DecodeError(ErrJson::new("Clock out of range")));
    }
    issue_token(cfg, email, user_id, user_role, now)
}

/// Decodes a token presented now; see `decode_token_at`. Whatever the clock reads,
/// a token is accepted only with the claims its signature covers, and one whose
/// signature does not check is refused.
pub fn decode_token(cfg: &TokenConfig, token: &str) -> (r: Result<Claims, LoginError>)
    ensures
        r matches Ok(c) ==> decoded_claims(token@, secret_key(*cfg)) == Some(c@),
        decoded_claims(token@, secret_key(*cfg)) is None ==> r is Err,
        r matches Err(e) ==> e is Unauthorized,
{
    let now = now_timestamp();
    decode_token_at(cfg, token, now)
}

/// The identity facts a handler needs from a session.
#[derive(Clone, Debug)]
pub struct AuthInfo {
    pub user_id: String,
    pub email: String,
    pub user_role: UserRole,
}

/// The e-mail of a session or a login form.
#[derive(Clone, Debug)]
pub struct LoginEmail {
    pub email: String,
}

/// A user id, as a query parameter or taken from a session.
#[derive(Clone, Debug)]
pub struct QueryUserId {
    pub user_id: String,
}

impl From<Claims> for AuthInfo {
    fn from(claims: Claims) -> (r: AuthInfo) {
        AuthInfo { user_id: claims.sub, email: claims.email, user_role: claims.aud }
    }
}

impl vstd::std_specs::convert::FromSpecImpl<Claims> for AuthInfo {
    open spec fn obeys_from_spec() -> bool {
        true
    }

    open spec fn from_spec(claims: Claims) -> AuthInfo {
        AuthInfo { user_id: claims.sub, email: claims.email, user_role: claims.aud }
    }
}

impl From<Claims> for LoginEmail {
    fn from(claims: Claims) -> (r: LoginEmail) {
        LoginEmail { email: claims.email }
    }
}

impl vstd::std_specs::convert::FromSpecImpl<Claims> for LoginEmail {
    open spec fn obeys_from_spec() -> bool {
        true
    }

    open spec fn from_spec(claims: Claims) -> LoginEmail {
        LoginEmail { email: claims.email }
    }
}

impl From<Claims> for QueryUserId {
    fn from(claims: Claims) -> (r: QueryUserId) {
        QueryUserId { user_id: claims.sub }
    }
}

impl vstd::std_specs::convert::FromSpecImpl<Claims> for QueryUserId {
    open spec fn obeys_from_spec() -> bool {
        true
    }

    open spec fn from_spec(claims: Claims) -> QueryUserId {
        QueryUserId { user_id: claims.sub }
    }
}

/// Decodes a token presented at `now` into the identity it carries.
pub fn decode_auth_info(cfg: &TokenConfig, token: &str, now: i64) -> (r: Result<AuthInfo, LoginError>)
    ensures
        r is Ok <==> valid_claims(token@, secret_key(*cfg), now) is Some,
        r matches Ok(a) ==> (valid_claims(token@, secret_key(*cfg), now) matches Some(c)
            && a.user_id@ == c.sub && a.email@ == c.email && a.user_role == c.aud),
        r matches Err(e) ==> e is Unauthorized,
{
    match decode_token_at(cfg, token, now) {
        Ok(c) => Ok(AuthInfo::from(c)),
        Err(e) => Err(e),
    }
}

} // verus!

//! The decisions of the session flows. Each step takes what the stores returned
//! and says what to answer and which cache commands to send; the caller performs
//! the store and cache calls in between.
use vstd::prelude::*;
use vstd::string::*;
use crate::credential::{base64_bytes_of, credential_matches, credential_of};
use crate::errors::{ErrJson, LoginError, RedisActixError};
use crate::forms::{CreateUserForm, opt_view};
use crate::revocation::{CheckJwt, RedisCommand, is_revocation_of};
use crate::role::UserRole;
use crate::token::{
    AuthInfo, TokenConfig, TOKEN_LIFETIME_SECS, create_token, decode_auth_info, decoded_claims,
    issue_token, issued_claims, role_or_user, secret_key, valid_claims,
};
use crate::user::{account_block, email_is_valid, is_new_account, is_user_id, User};

verus! {

/// An answer together with the revocation it asks for, if any.
pub struct Step<T> {
    pub result: Result<T, LoginError>,
    pub revoke: Option<RedisCommand>,
}

/// Whether `revoke` revokes exactly the presented token, or nothing when none was presented.
pub open spec fn revokes_presented(revoke: Option<RedisCommand>, presented: Option<String>) -> bool {
    match presented {
        Some(t) => revoke matches Some(c) && is_revocation_of(c, t@),
        None => revoke is None,
    }
}

/// Best-effort revocation of the presented session token, if any.
pub fn revoke_presented(presented: &Option<String>) -> (r: Option<RedisCommand>)
    ensures
        revokes_presented(r, *presented),
{
    match presented {
        Some(t) => Some(RedisCommand::revoke(t.as_str())),
        None => None,
    }
}

/// Logout always succeeds; it revokes the presented token when there is one.
pub fn logout(presented: &Option<String>) -> (r: Option<RedisCommand>)
    ensures
        revokes_presented(r, *presented),
{
    revoke_presented(presented)
}

/// Checks a password for the account found (if any): no account is NoUserError,
/// a failed check is CredentialsError.
pub fn check_password(user: Option<User>, password: &str) -> (r: Result<User, LoginError>)
    ensures
        user is None ==> r matches Err(LoginError::NoUserError(_)),
        user matches Some(u) ==> (r is Ok <==> credential_matches(u.id@, password@, u.password_hash@)),
        user matches Some(u) ==> (r matches Err(e) ==> e is CredentialsError),
        r matches Ok(v) ==> user == Some(v),
{
    match user {
        None => Err(LoginError::NoUserError(ErrJson::new("No user with these credentials"))),
        Some(u) => match u.verify_credentials(password) {
            Err(e) => Err(LoginError::CredentialsError(ErrJson::new(e.detail().message.as_str()))),
            Ok(()) => Ok(u),
        },
    }
}

/// Login at time `now`: check the password, refuse a suspended or deleted account
/// (revoking the session token presented with the request), else issue a token.
pub fn login_at(
    cfg: &TokenConfig,
    user: Option<User>,
    password: &str,
    presented: &Option<String>,
    now: i64,
) -> (r: Step<String>)
    requires
        now <= i64::MAX - TOKEN_LIFETIME_SECS,
    ensures
        user is None ==> (r.result matches Err(LoginError::NoUserError(_)) && r.revoke is None),
        user matches Some(u) ==> (!credential_matches(u.id@, password@, u.password_hash@) ==> (
        r.result matches Err(LoginError::CredentialsError(_)) && r.revoke is None)),
        user matches Some(u) ==> (credential_matches(u.id@, password@, u.password_hash@)
            && account_block(u) is Some ==> (r.result matches Err(LoginError::Suspended(j))
            && Some(j.message@) == account_block(u) && revokes_presented(r.revoke, *presented))),
        user matches Some(u) ==> (credential_matches(u.id@, password@, u.password_hash@)
            && account_block(u) is None ==> (r.revoke is None && r.result is Ok && (
        r.result matches Ok(t) ==> valid_claims(t@, secret_key(*cfg), now) == Some(
            issued_claims(cfg.issuer@, u.email@, u.id@, u.user_role, now),
        )))),
{
    let u = match check_password(user, password) {
        Err(e) => {
            return Step { result: Err(e), revoke: None };
        },
        Ok(u) => u,
    };
    if let Err(e) = u.check_account_state() {
        return Step { result: Err(e), revoke: revoke_presented(presented) };
    }
    let result = issue_token(cfg, u.email.clone(), u.id.clone(), u.user_role, now);
    Step { result, revoke: None }
}

/// Login now; see `login_at`. The refusals are those of `login_at`, whatever the
/// clock reads; an active account whose password checks gets a token for its own
/// identity, unless the clock reads beyond the range of expiry times.
pub fn login(cfg: &TokenConfig, user: Option<User>, password: &str, presented: &Option<String>) -> (r:
    Step<String>)
    ensures
        user is None ==> (r.result matches Err(LoginError::NoUserError(_)) && r.revoke is None),
        user matches Some(u) ==> (!credential_matches(u.id@, password@, u.password_hash@) ==> (
        r.result matches Err(LoginError::CredentialsError(_)) && r.revoke is None)),
        user matches Some(u) ==> (credential_matches(u.id@, password@, u.password_hash@)
            && account_block(u) is Some ==> (r.result matches Err(LoginError::Suspended(j))
            && Some(j.message@) == account_block(u) && revokes_presented(r.revoke, *presented))),
        user matches Some(u) ==> (credential_matches(u.id@, password@, u.password_hash@)
            && account_block(u) is None ==> (r.revoke is None && (r.result matches Ok(t) ==> (
        decoded_claims(t@, secret_key(*cfg)) matches Some(c) && c.sub == u.id@ && c.email
            == u.email@ && c.aud == role_or_user(u.user_role) && c.iss == cfg.issuer@ && c.exp
            == c.iat + TOKEN_LIFETIME_SECS)) && (r.result matches Err(e) ==> e is DecodeError))),
{
    let u = match check_password(user, password) {
        Err(e) => {
            return Step { result: Err(e), revoke: None };
        },
        Ok(u) => u,
    };
    if let Err(e) = u.check_account_state() {
        return Step { result: Err(e), revoke: revoke_presented(presented) };
    }
    let result = create_token(cfg, u.email.clone(), u.id.clone(), u.user_role);
    Step { result, revoke: None }
}

/// An authenticated request whose token has been decoded.
#[derive(Clone, Debug)]
pub struct SessionRead {
    pub token: String,
    pub auth: AuthInfo,
}

/// First step of an authenticated request at time `now`: a token must be presented
/// (CredentialsError if not) and be valid (Unauthorized if not).
pub fn begin_authenticated(cfg: &TokenConfig, presented: Option<String>, now: i64) -> (r: Result<
    SessionRead,
    LoginError,
>)
    ensures
        presented is None ==> (r matches Err(LoginError::CredentialsError(j)) && j.message@
            == "No JWT found, please login."@),
        presented matches Some(t) ==> (r is Ok <==> valid_claims(t@, secret_key(*cfg), now) is Some),
        presented matches Some(t) ==> (r matches Err(e) ==> e is Unauthorized),
        r matches Ok(s) ==> (presented matches Some(t) && s.token@ == t@),
        r matches Ok(s) ==> (valid_claims(s.token@, secret_key(*cfg), now) matches Some(c)
            && s.auth.user_id@ == c.sub && s.auth.email@ == c.email && s.auth.user_role == c.aud),
{
    match presented {
        None => Err(LoginError::CredentialsError(ErrJson::new("No JWT found, please login."))),
        Some(t) => match decode_auth_info(cfg, t.as_str(), now) {
            Err(e) => Err(e),
            Ok(auth) => Ok(SessionRead { token: t, auth }),
        },
    }
}

impl SessionRead {
    /// Second step: the denylist lookup of the token. A value found fails the
    /// request as Unauthorized before any store is touched; a failed lookup passes.
    pub fn after_blacklist(self, lookup: Result<Option<String>, RedisActixError>) -> (r: Result<
        SessionRead,
        LoginError,
    >)
        ensures
            r is Err <==> lookup matches Ok(Some(_)),
            r matches Err(e) ==> e is Unauthorized,
            r matches Ok(s) ==> s.token@ == self.token@ && s.auth == self.auth,
    {
        let auth = self.auth;
        match CheckJwt(self.token).decide(lookup) {
            Ok(token) => Ok(SessionRead { token, auth }),
            Err(_) => Err(
                LoginError::Unauthorized(ErrJson::new("JWT revoked from logout, login again.")),
            ),
        }
    }

    /// Last step: the account fetched by the session's user id. A suspended or
    /// deleted account fails and has the session's token revoked.
    pub fn finish(self, fetched: Result<User, LoginError>) -> (r: Step<User>)
        ensures
            fetched is Err ==> r.result is Err && r.revoke is None,
            fetched matches Ok(u) ==> (r.result is Ok <==> account_block(u) is None),
            fetched matches Ok(u) ==> (account_block(u) is Some ==> (r.result matches Err(
                LoginError::Suspended(j),
            ) && Some(j.message@) == account_block(u))),
            fetched matches Ok(u) ==> (account_block(u) is Some ==> (r.revoke matches Some(c)
                && is_revocation_of(c, self.token@))),
            fetched matches Ok(u) ==> (account_block(u) is None ==> (r.result == Ok::<
                User,
                LoginError,
            >(u) && r.revoke is None)),
    {
        match fetched {
            Err(e) => Step { result: Err(e), revoke: None },
            Ok(u) => match u.check_account_state() {
                Err(e) => Step {
                    result: Err(e),
                    revoke: Some(RedisCommand::revoke(self.token.as_str())),
                },
                Ok(()) => Step { result: Ok(u), revoke: None },
            },
        }
    }
}

/// A password change by a signed-in user: the current password must check; the
/// answer is the new stored credential, salted with the user id.
pub fn change_password(user: &User, current_password: &str, new_password: &str) -> (r: Result<
    String,
    LoginError,
>)
    ensures
        r is Ok <==> credential_matches(user.id@, current_password@, user.password_hash@),
        r matches Ok(h) ==> h@ == credential_of(user.id@, new_password@),
        r matches Err(e) ==> (e is DecodeError || e is WrongPassword),
        r matches Err(e) ==> (base64_bytes_of(user.password_hash@) is None <==> e is DecodeError),
{
    match user.verify_credentials(current_password) {
        Err(e) => Err(e),
        Ok(()) => Ok(user.generate_new_password_hash(new_password)),
    }
}

/// Only a platform admin may suspend or unsuspend users.
pub fn require_admin(auth: &AuthInfo, suspending: bool) -> (r: Result<(), LoginError>)
    ensures
        r is Ok <==> auth.user_role == UserRole::PLATFORM_ADMIN,
        r matches Err(e) ==> (e matches LoginError::CredentialsError(j) && j.message@ == (if suspending {
            "Not an admin, can't suspend a user"@
        } else {
            "Not an admin, can't unsuspend a user"@
        })),
{
    if auth.user_role == UserRole::PLATFORM_ADMIN {
        Ok(())
    } else if suspending {
        Err(LoginError::CredentialsError(ErrJson::new("Not an admin, can't suspend a user")))
    } else {
        Err(LoginError::CredentialsError(ErrJson::new("Not an admin, can't unsuspend a user")))
    }
}

/// Who may see private fields when listing users: the viewer, when a valid
/// admin token is presented; `None` for no token or another role. An invalid
/// token fails the request.
pub fn admin_viewer(cfg: &TokenConfig, presented: Option<String>, now: i64) -> (r: Result<
    Option<AuthInfo>,
    LoginError,
>)
    ensures
        presented is None ==> r == Ok::<Option<AuthInfo>, LoginError>(None),
        presented matches Some(t) ==> (r is Err <==> valid_claims(t@, secret_key(*cfg), now) is None),
        r matches Ok(Some(a)) ==> a.user_role == UserRole::PLATFORM_ADMIN,
        r matches Err(e) ==> e is Unauthorized,
        presented matches Some(t) ==> (valid_claims(t@, secret_key(*cfg), now) matches Some(c)
            ==> (r matches Ok(v) && (v is Some <==> c.aud == UserRole::PLATFORM_ADMIN))),
{
    match presented {
        None => Ok(None),
        Some(t) => match decode_auth_info(cfg, t.as_str(), now) {
            Err(e) => Err(e),
            Ok(a) => {
                if a.user_role == UserRole::PLATFORM_ADMIN {
                    Ok(Some(a))
                } else {
                    Ok(None)
                }
            },
        },
    }
}

/// The record kind a listing returns to a viewer.
pub fn listing_kind(viewer: &Option<AuthInfo>) -> (r: &'static str)
    ensures
        viewer is Some ==> r@ == "UserPrivate"@,
        viewer is None ==> r@ == "UserPublic"@,
{
    match viewer {
        Some(_) => "UserPrivate",
        None => "UserPublic",
    }
}

/// The account to insert for a registration under a given id, refused if the
/// e-mail is not acceptable.
pub fn register_with_id(id: String, form: CreateUserForm) -> (r: Result<User, LoginError>)
    ensures
        r is Ok <==> email_is_valid(form.email@),
        r matches Ok(u) ==> is_new_account(
            u,
            id@,
            form.email@,
            form.password@,
            opt_view(form.first_name),
            opt_view(form.last_name),
        ),
        r matches Err(e) ==> e is EmailInvalid,
{
    let user = User::with_id(id, form.email, form.password.as_str(), form.first_name, form.last_name);
    match user.validate() {
        Ok(()) => Ok(user),
        Err(e) => Err(e),
    }
}

/// The account to insert for a registration, under a fresh random id.
pub fn register(form: CreateUserForm) -> (r: Result<User, LoginError>)
    ensures
        r is Ok <==> email_is_valid(form.email@),
        r matches Ok(u) ==> is_user_id(u.id@) && is_new_account(
            u,
            u.id@,
            form.email@,
            form.password@,
            opt_view(form.first_name),
            opt_view(form.last_name),
        ),
        r matches Err(e) ==> e is EmailInvalid,
{
    let user = User::new(form.email, form.password, form.first_name, form.last_name);
    match user.validate() {
        Ok(()) => Ok(user),
        Err(e) => Err(e),
    }
}

/// Why the relational store refused an insert.
#[derive(Clone, Debug)]
pub enum InsertError {
    /// A unique field (the e-mail or the id) is taken.
    UniqueViolation(String),
    Other(String),
}

/// Reads the store's answer to an account insert: a unique-field collision is
/// DuplicateUser, any other failure DatabaseError.
pub fn stored_account(inserted: Result<User, InsertError>) -> (r: Result<User, LoginError>)
    ensures
        inserted matches Ok(u) ==> r == Ok::<User, LoginError>(u),
        inserted matches Err(InsertError::UniqueViolation(_)) ==> r matches Err(
            LoginError::DuplicateUser(_),
        ),
        inserted matches Err(InsertError::Other(_)) ==> r matches Err(LoginError::DatabaseError(_)),
{
    match inserted {
        Ok(u) => Ok(u),
        Err(InsertError::UniqueViolation(m)) => Err(LoginError::DuplicateUser(ErrJson::new(m.as_str()))),
        Err(InsertError::Other(m)) => Err(LoginError::DatabaseError(ErrJson::new(m.as_str()))),
    }
}

} // verus!

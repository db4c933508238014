use std::collections::HashMap;

use user_auth::errors::{CheckJwtError, LoginError, PasswordResetError, RedisActixError};
use user_auth::forms::{CreateUserForm, NotifyMessage, RequestResetPasswordForm, SendgridStatus};
use user_auth::profile::{deletion_message, prepare_profile_update, prepare_soft_delete, UpdateUserProfile};
use user_auth::reset::PasswordReset;
use user_auth::revocation::{CheckJwt, RedisCommand};
use user_auth::role::UserRole;
use user_auth::session::{
    admin_viewer, begin_authenticated, change_password, check_password, listing_kind, login, login_at,
    logout, register, register_with_id, require_admin, stored_account, InsertError,
};
use user_auth::token::{issue_token, TokenConfig};
use user_auth::user::User;

const NOW: i64 = 1_700_000_000;

struct World {
    users: HashMap<String, User>,
    cache: HashMap<String, String>,
    cfg: TokenConfig,
}

impl World {
    fn new() -> World {
        World {
            users: HashMap::new(),
            cache: HashMap::new(),
            cfg: TokenConfig { secret: String::from("s3cret"), issuer: String::from("localhost") },
        }
    }

    fn apply(&mut self, cmd: RedisCommand) {
        match cmd {
            RedisCommand::Setex(s) => {
                self.cache.insert(s.key, s.value);
            }
            RedisCommand::SetValue(k, v) => {
                self.cache.insert(k, v);
            }
            RedisCommand::Get(_) => {}
            RedisCommand::Del(k) => {
                self.cache.remove(&k);
            }
        }
    }

    fn lookup(&self, key: &str) -> Result<Option<String>, RedisActixError> {
        Ok(self.cache.get(key).cloned())
    }

    fn by_email(&self, email: &str) -> Option<User> {
        self.users.values().find(|u| u.email == email).cloned()
    }

    fn create(&mut self, id: &str, email: &str, password: &str) {
        let form = CreateUserForm {
            email: String::from(email),
            password: String::from(password),
            first_name: None,
            last_name: None,
        };
        let user = register_with_id(String::from(id), form).unwrap();
        self.users.insert(user.id.clone(), user);
    }

    fn login(&mut self, email: &str, password: &str, presented: Option<String>) -> Result<String, LoginError> {
        let user = self.by_email(email);
        let step = login_at(&self.cfg, user, password, &presented, NOW);
        if let Some(c) = step.revoke {
            self.apply(c);
        }
        step.result
    }

    fn read_profile(&mut self, token: Option<String>) -> Result<User, LoginError> {
        let session = begin_authenticated(&self.cfg, token, NOW + 60)?;
        let found = self.lookup(&session.token);
        let session = session.after_blacklist(found)?;
        let fetched = match self.users.get(&session.auth.user_id) {
            Some(u) => Ok(u.clone()),
            None => Err(LoginError::NoUserError(user_auth::errors::ErrJson::new("no user"))),
        };
        let step = session.finish(fetched);
        if let Some(c) = step.revoke {
            self.apply(c);
        }
        step.result
    }

    fn set_password(&mut self, id: &str, hash: String) {
        self.users.get_mut(id).unwrap().password_hash = hash;
    }

    fn submit_reset(&mut self, ticket: &PasswordReset, now: i64) -> Result<PasswordReset, PasswordResetError> {
        ticket.check_submission(now)?;
        let email = ticket.bind_ticket(self.lookup(&ticket.reset_id))?;
        let fetched = self.by_email(&email).ok_or(LoginError::NoUserError(user_auth::errors::ErrJson::new("no user")));
        let hash = ticket.new_credential(fetched.clone())?;
        let id = fetched.unwrap().id;
        self.set_password(&id, hash);
        let stored = Ok(self.users[&id].clone());
        let (result, del) = ticket.clone().finish(stored);
        if let Some(c) = del {
            self.apply(c);
        }
        result
    }
}

#[test]
fn revocation_marks_only_that_token() {
    let mut w = World::new();
    let t1 = String::from("token-one");
    let t2 = String::from("token-two");
    w.apply(logout(&Some(t1.clone())).unwrap());
    assert_eq!(w.cache.get("token-one").map(String::as_str), Some("REVOKED"));
    assert_eq!(CheckJwt(t1.clone()).decide(w.lookup(&t1)), Err(CheckJwtError::Revoked));
    assert_eq!(CheckJwt(t2.clone()).decide(w.lookup(&t2)), Ok(t2.clone()));
    // revoking twice has the same effect
    w.apply(logout(&Some(t1.clone())).unwrap());
    assert_eq!(w.cache.len(), 1);
    assert!(logout(&None).is_none());
}

#[test]
fn blacklist_check_fails_open() {
    let t = String::from("tok");
    let down: Result<Option<String>, RedisActixError> = Err(RedisActixError::Connection(String::from("down")));
    assert_eq!(CheckJwt(t.clone()).decide(down), Ok(t.clone()));
    assert_eq!(CheckJwt(t.clone()).decide(Ok(Some(String::from("anything")))), Err(CheckJwtError::Revoked));
}

#[test]
fn revoke_command_arguments() {
    let args = RedisCommand::revoke("tok").to_args();
    assert_eq!(args, vec!["SETEX", "tok", "2592000", "REVOKED"]);
    assert_eq!(RedisCommand::Del(String::from("k")).to_args(), vec!["DEL", "k"]);
    assert_eq!(RedisCommand::Get(String::from("k")).to_args(), vec!["GET", "k"]);
    assert_eq!(RedisCommand::SetValue(String::from("k"), String::from("v")).to_args(), vec!["SET", "k", "v"]);
}

#[test]
fn logout_then_read_is_unauthorized() {
    let mut w = World::new();
    w.create("ualice", "alice@x.com", "pw1");
    let t1 = w.login("alice@x.com", "pw1", None).unwrap();
    assert_eq!(w.read_profile(Some(t1.clone())).unwrap().email, "alice@x.com");
    if let Some(c) = logout(&Some(t1.clone())) {
        w.apply(c);
    }
    assert!(matches!(w.read_profile(Some(t1)), Err(LoginError::Unauthorized(_))));
    assert!(matches!(w.read_profile(None), Err(LoginError::CredentialsError(_))));
}

#[test]
fn change_password_then_login() {
    let mut w = World::new();
    w.create("ualice", "alice@x.com", "pw1");
    let t1 = w.login("alice@x.com", "pw1", None).unwrap();
    let session = begin_authenticated(&w.cfg, Some(t1), NOW).unwrap();
    let user = w.users[&session.auth.user_id].clone();
    assert!(matches!(change_password(&user, "wrong", "pw2"), Err(LoginError::WrongPassword(_))));
    let hash = change_password(&user, "pw1", "pw2").unwrap();
    w.set_password("ualice", hash);
    assert!(matches!(w.login("alice@x.com", "pw1", None), Err(LoginError::CredentialsError(_))));
    assert!(w.login("alice@x.com", "pw2", None).is_ok());
    assert!(matches!(w.login("bob@x.com", "pw2", None), Err(LoginError::NoUserError(_))));
}

#[test]
fn reset_then_login_and_replay_fails() {
    let mut w = World::new();
    w.create("ualice", "alice@x.com", "pw1");
    let form = RequestResetPasswordForm { email: String::from("alice@x.com") };
    let mut ticket = PasswordReset::requested(&form, String::from("R1"), NOW);
    assert_eq!(ticket.expires_at, NOW + 48 * 3600);
    let register = ticket.register_command();
    match &register {
        RedisCommand::Setex(s) => {
            assert_eq!(s.key, "R1");
            assert_eq!(s.ttl, 3600);
            assert_eq!(s.value, "alice@x.com");
        }
        _ => panic!("expected SETEX"),
    }
    w.apply(register);
    match ticket.notification() {
        NotifyMessage::SendPasswordResetEmail(e, id, x) => {
            assert_eq!((e.as_str(), id.as_str(), x), ("alice@x.com", "R1", NOW + 172_800));
        }
        _ => panic!("expected a reset e-mail"),
    }
    ticket.updated_password(String::from("pw3"));
    let done = w.submit_reset(&ticket, NOW + 60).unwrap();
    assert_eq!(done.reset_id, "R1");
    assert!(!w.cache.contains_key("R1"));
    assert!(w.login("alice@x.com", "pw3", None).is_ok());
    assert!(matches!(w.submit_reset(&ticket, NOW + 61), Err(PasswordResetError::VerificationError(_))));
}

#[test]
fn expired_reset_ticket_is_refused_whatever_the_cache() {
    let mut w = World::new();
    w.create("ualice", "alice@x.com", "pw1");
    let form = RequestResetPasswordForm { email: String::from("alice@x.com") };
    let mut ticket = PasswordReset::requested(&form, String::from("R2"), NOW);
    w.apply(ticket.register_command());
    ticket.updated_password(String::from("pw9"));
    let late = ticket.expires_at + 1;
    assert!(matches!(w.submit_reset(&ticket, late), Err(PasswordResetError::ResetExpired(_))));
    assert!(w.cache.contains_key("R2"));
    assert!(w.submit_reset(&ticket, ticket.expires_at).is_ok());
}

#[test]
fn reset_ticket_bound_to_other_email_is_refused() {
    let form = RequestResetPasswordForm { email: String::from("alice@x.com") };
    let ticket = PasswordReset::requested(&form, String::from("R3"), NOW);
    assert!(matches!(ticket.bind_ticket(Ok(Some(String::from("mallory@x.com")))), Err(PasswordResetError::VerificationError(_))));
    assert!(matches!(ticket.bind_ticket(Ok(None)), Err(PasswordResetError::VerificationError(_))));
    assert!(matches!(ticket.check_submission(NOW), Err(PasswordResetError::Other(_))));
    let fail = Err(LoginError::DatabaseError(user_auth::errors::ErrJson::new("down")));
    let (r, del) = ticket.clone().finish(fail);
    assert!(matches!(r, Err(PasswordResetError::DbError(_))));
    assert!(del.is_none());
}

#[test]
fn reset_request_has_fresh_ticket() {
    let form = RequestResetPasswordForm { email: String::from("a@x.com") };
    let a = PasswordReset::request(&form).unwrap();
    let b = PasswordReset::request(&form).unwrap();
    assert_eq!(a.reset_id.len(), 36);
    assert_ne!(a.reset_id, b.reset_id);
    let resp = a.response(SendgridStatus { message: None });
    assert_eq!(resp.email_sent_to, "a@x.com");
}

#[test]
fn suspended_account_cannot_login_or_read() {
    let mut w = World::new();
    w.create("ualice", "alice@x.com", "pw3");
    w.create("uadmin", "admin@x.com", "root");
    w.users.get_mut("uadmin").unwrap().user_role = Some(UserRole::PLATFORM_ADMIN);
    let t = w.login("alice@x.com", "pw3", None).unwrap();
    let admin_token = w.login("admin@x.com", "root", None).unwrap();
    let admin = begin_authenticated(&w.cfg, Some(admin_token), NOW).unwrap();
    assert!(require_admin(&admin.auth, true).is_ok());
    let alice = begin_authenticated(&w.cfg, Some(t.clone()), NOW).unwrap();
    assert!(matches!(require_admin(&alice.auth, true), Err(LoginError::CredentialsError(_))));
    w.users.get_mut("ualice").unwrap().is_suspended = true;
    match w.login("alice@x.com", "pw3", Some(String::from("old-cookie"))) {
        Err(LoginError::Suspended(j)) => assert_eq!(j.message, "User is suspended"),
        _ => panic!("expected a suspended account"),
    }
    assert!(w.cache.contains_key("old-cookie"));
    match w.read_profile(Some(t.clone())) {
        Err(LoginError::Suspended(j)) => assert_eq!(j.message, "User is suspended"),
        _ => panic!("expected a suspended account"),
    }
    assert_eq!(w.cache.get(&t).map(String::as_str), Some("REVOKED"));
    assert!(matches!(w.read_profile(Some(t)), Err(LoginError::Unauthorized(_))));
}

#[test]
fn deleted_account_message() {
    let mut w = World::new();
    w.create("ubob", "bob@x.com", "pw");
    w.users.get_mut("ubob").unwrap().is_deleted = true;
    match w.login("bob@x.com", "pw", None) {
        Err(LoginError::Suspended(j)) => assert_eq!(j.message, "User is deleted"),
        _ => panic!("expected a deleted account"),
    }
}

#[test]
fn login_with_clock_issues_readable_token() {
    let mut w = World::new();
    w.create("ualice", "alice@x.com", "pw1");
    let user = w.by_email("alice@x.com");
    let step = login(&w.cfg, user, "pw1", &None);
    assert!(step.result.is_ok());
    assert!(step.revoke.is_none());
    let user = w.by_email("alice@x.com");
    assert!(matches!(login(&w.cfg, user, "nope", &None).result, Err(LoginError::CredentialsError(_))));
}

#[test]
fn listing_sees_private_fields_only_as_admin() {
    let cfg = TokenConfig { secret: String::from("k"), issuer: String::from("i") };
    let admin = issue_token(&cfg, String::from("a@x.com"), String::from("u1"), Some(UserRole::PLATFORM_ADMIN), NOW).unwrap();
    let plain = issue_token(&cfg, String::from("b@x.com"), String::from("u2"), None, NOW).unwrap();
    let v = admin_viewer(&cfg, Some(admin), NOW).unwrap();
    assert_eq!(listing_kind(&v), "UserPrivate");
    let v = admin_viewer(&cfg, Some(plain), NOW).unwrap();
    assert_eq!(listing_kind(&v), "UserPublic");
    assert!(admin_viewer(&cfg, None, NOW).unwrap().is_none());
    assert!(matches!(admin_viewer(&cfg, Some(String::from("junk")), NOW), Err(LoginError::Unauthorized(_))));
}

#[test]
fn registration_validates_email() {
    let bad = CreateUserForm { email: String::from("not-an-email"), password: String::from("pw"), first_name: None, last_name: None };
    assert!(matches!(register(bad), Err(LoginError::EmailInvalid(_))));
    let good = CreateUserForm { email: String::from("a@x.com"), password: String::from("pw"), first_name: Some(String::from("A")), last_name: None };
    let u = register(good).unwrap();
    assert_eq!(u.user_role, Some(UserRole::USER));
    assert!(!u.email_verified && !u.is_suspended && !u.is_deleted);
    let dup = stored_account(Err(InsertError::UniqueViolation(String::from("users_email_key"))));
    assert!(matches!(dup, Err(LoginError::DuplicateUser(_))));
    assert!(matches!(stored_account(Err(InsertError::Other(String::from("x")))), Err(LoginError::DatabaseError(_))));
}

#[test]
fn profile_update_and_soft_delete() {
    let u = User::with_id(String::from("ujack"), String::from("jack@black.com"), "tenacious", Some(String::from("Jack")), None);
    let p = prepare_profile_update(&u, Some(String::from("jack.black@tenacious.com")), None, Some(String::from("jablinski"))).unwrap();
    assert_eq!(p.email.as_deref(), Some("jack.black@tenacious.com"));
    assert_eq!(p.first_name.as_deref(), Some("Jack"));
    assert_eq!(p.last_name.as_deref(), Some("jablinski"));
    assert!(matches!(prepare_profile_update(&u, Some(String::from("bad")), None, None), Err(LoginError::EmailInvalid(_))));
    assert!(matches!(prepare_soft_delete(&u, "wrong"), Err(LoginError::CredentialsError(_))));
    let d = prepare_soft_delete(&u, "tenacious").unwrap();
    assert_eq!(d.email.as_deref(), Some("deleted_ujack"));
    assert_eq!(d.first_name, None);
    assert_eq!(d.is_deleted, Some(true));
    assert_eq!(deletion_message(&u), "Deleted user: jack@black.com");
    assert!(check_password(Some(u.clone()), "tenacious").is_ok());
}

#[test]
fn profile_setters() {
    let u = User::with_id(String::from("ukyle"), String::from("kyle@gass.com"), "tribute", None, None);
    let mut p = UpdateUserProfile::new(&u);
    assert_eq!(p.password_hash.as_deref(), Some(u.password_hash.as_str()));
    p.update_password(String::from("new_password"));
    assert_eq!(p.password_hash, Some(u.generate_new_password_hash("new_password")));
    p.update_first_name(String::from("Kyle"));
    p.update_last_name(String::from("Gass"));
    p.update_email(String::from("k@g.com"));
    p.update_email_verified(true);
    p.update_is_suspended(true);
    p.update_is_deleted(false);
    p.update_user_role(UserRole::DEALER);
    assert_eq!(p.first_name.as_deref(), Some("Kyle"));
    assert_eq!(p.last_name.as_deref(), Some("Gass"));
    assert_eq!(p.email.as_deref(), Some("k@g.com"));
    assert_eq!((p.email_verified, p.is_suspended, p.is_deleted), (Some(true), Some(true), Some(false)));
    assert_eq!(p.user_role, Some(UserRole::DEALER));
    assert!(p.validate().is_ok());
}

#[test]
fn stated_error_messages() {
    let cfg = TokenConfig { secret: String::from("k"), issuer: String::from("i") };
    match begin_authenticated(&cfg, None, NOW) {
        Err(LoginError::CredentialsError(j)) => assert_eq!(j.message, "No JWT found, please login."),
        _ => panic!("expected a missing-token error"),
    }
    let plain = issue_token(&cfg, String::from("b@x.com"), String::from("u2"), None, NOW).unwrap();
    let s = begin_authenticated(&cfg, Some(plain), NOW).unwrap();
    match require_admin(&s.auth, true) {
        Err(LoginError::CredentialsError(j)) => assert_eq!(j.message, "Not an admin, can't suspend a user"),
        _ => panic!("expected a refusal"),
    }
    match require_admin(&s.auth, false) {
        Err(LoginError::CredentialsError(j)) => assert_eq!(j.message, "Not an admin, can't unsuspend a user"),
        _ => panic!("expected a refusal"),
    }
}

#[test]
fn malformed_stored_credential_on_change() {
    let mut u = User::with_id(String::from("u1"), String::from("a@x.com"), "pw", None, None);
    u.password_hash = String::from("%%%");
    assert!(matches!(u.verify_credentials("pw"), Err(LoginError::DecodeError(_))));
    assert!(matches!(change_password(&u, "pw", "pw2"), Err(LoginError::DecodeError(_))));
}

#[test]
fn kept_fields_on_update_and_delete() {
    let mut u = User::with_id(String::from("ujack"), String::from("jack@black.com"), "tenacious", None, None);
    u.email_verified = true;
    u.is_suspended = true;
    let p = prepare_profile_update(&u, None, Some(String::from("J")), None).unwrap();
    assert_eq!((p.email_verified, p.is_suspended, p.is_deleted), (Some(true), Some(true), Some(false)));
    let d = prepare_soft_delete(&u, "tenacious").unwrap();
    assert_eq!(d.password_hash.as_deref(), Some(u.password_hash.as_str()));
    assert_eq!(d.is_suspended, Some(true));
}

//! The two-step password reset: a ticket registered in the cache and mailed to
//! the requester, then consumed once to set a new credential.
use vstd::prelude::*;
use vstd::string::*;
use crate::clock::now_timestamp;
use crate::credential::credential_of;
use crate::errors::{ErrJson, LoginError, PasswordResetError, RedisActixError};
use crate::forms::{NotifyMessage, PasswordResetResponse, RequestResetPasswordForm, SendgridStatus, opt_view};
use crate::revocation::{CacheModel, RedisCommand, Setex, apply_command, cache_lookup};
use crate::user::User;

verus! {

/// How long a ticket's carried expiry lies after its request: forty-eight hours.
pub const RESET_EXPIRY_SECS: i64 = 172_800;

/// How long the cache keeps a ticket: one hour.
pub const RESET_TICKET_TTL_SECS: i32 = 3600;

/// A password-reset ticket as requested, mailed and submitted back.
#[derive(Clone, Debug)]
pub struct PasswordReset {
    pub reset_id: String,
    pub email: String,
    pub new_password: Option<String>,
    /// seconds since the epoch
    pub expires_at: i64,
}

/// Relies on uuid::Uuid::new_v4 and its hyphenated text form: 36 characters.
/// Nothing else is known of the value; two calls may differ.
#[verifier::external_body]
fn fresh_ticket_id() -> (r: String)
    ensures
        r@.len() == 36,
{
    uuid::Uuid::new_v4().to_string()
}

/// Whether a submission's carried expiry has passed at `now`.
pub open spec fn ticket_expired(t: PasswordReset, now: i64) -> bool {
    now > t.expires_at
}

/// The e-mail a ticket is bound to, given what the cache holds under its id: the
/// stored e-mail when it is the one submitted; `None` for no entry or another e-mail.
pub open spec fn ticket_binding(t: PasswordReset, found: Option<Seq<char>>) -> Option<Seq<char>> {
    match found {
        Some(e) => if e == t.email@ {
            Some(e)
        } else {
            None
        },
        None => None,
    }
}

impl PasswordReset {
    /// The ticket for a reset requested at `now` under the id `reset_id`.
    pub fn requested(form: &RequestResetPasswordForm, reset_id: String, now: i64) -> (r: PasswordReset)
        requires
            now <= i64::MAX - RESET_EXPIRY_SECS,
        ensures
            r.reset_id@ == reset_id@,
            r.email@ == form.email@,
            r.new_password is None,
            r.expires_at == now + RESET_EXPIRY_SECS,
    {
        PasswordReset {
            reset_id,
            email: form.email.clone(),
            new_password: None,
            expires_at: now + RESET_EXPIRY_SECS,
        }
    }

    /// A ticket for a reset requested now, under a fresh random id; `None` only if
    /// the clock reads beyond the range of expiry times.
    pub fn request(form: &RequestResetPasswordForm) -> (r: Option<PasswordReset>)
        ensures
            r matches Some(t) ==> (t.email@ == form.email@ && t.new_password is None
                && t.reset_id@.len() == 36),
    {
        let now = now_timestamp();
        if now > i64::MAX - RESET_EXPIRY_SECS {
            return None;
        }
        Some(PasswordReset::requested(form, fresh_ticket_id(), now))
    }

    /// Sets the password the submission asks for.
    pub fn updated_password(&mut self, new_password: String)
        ensures
            *final(self) == (PasswordReset { new_password: Some(new_password), ..*old(self) }),
    {
        self.new_password = Some(new_password);
    }

    /// The cache entry that registers the ticket: its id bound to the requester's
    /// e-mail for one hour.
    pub fn register_command(&self) -> (r: RedisCommand)
        ensures
            r matches RedisCommand::Setex(s) && s.key@ == self.reset_id@ && s.ttl
                == RESET_TICKET_TTL_SECS && s.value@ == self.email@,
    {
        RedisCommand::Setex(
            Setex { key: self.reset_id.clone(), ttl: RESET_TICKET_TTL_SECS, value: self.email.clone() },
        )
    }

    /// The message asking the notification collaborator to mail the ticket.
    pub fn notification(&self) -> (r: NotifyMessage)
        ensures
            r matches NotifyMessage::SendPasswordResetEmail(e, id, x) && e@ == self.email@ && id@
                == self.reset_id@ && x == self.expires_at,
    {
        NotifyMessage::SendPasswordResetEmail(self.email.clone(), self.reset_id.clone(), self.expires_at)
    }

    /// The answer to the requester, which has the same shape whether or not the
    /// e-mail belongs to an account.
    pub fn response(&self, status: SendgridStatus) -> (r: PasswordResetResponse)
        ensures
            r.reset_id@ == self.reset_id@,
            r.email_sent_to@ == self.email@,
    {
        PasswordResetResponse {
            reset_id: self.reset_id.clone(),
            email_sent_to: self.email.clone(),
            status,
        }
    }

    /// The cache entry removal that consumes the ticket.
    pub fn consume_command(&self) -> (r: RedisCommand)
        ensures
            r matches RedisCommand::Del(k) && k@ == self.reset_id@,
    {
        RedisCommand::Del(self.reset_id.clone())
    }

    /// First step of a submission at time `now`: a ticket whose carried expiry has
    /// passed is refused whatever the cache holds; so is one without a new password.
    pub fn check_submission(&self, now: i64) -> (r: Result<(), PasswordResetError>)
        ensures
            ticket_expired(*self, now) ==> r matches Err(PasswordResetError::ResetExpired(_)),
            !ticket_expired(*self, now) ==> (r is Ok <==> self.new_password is Some),
            !ticket_expired(*self, now) ==> (r matches Err(e) ==> e is Other),
    {
        if now > self.expires_at {
            Err(PasswordResetError::ResetExpired(ErrJson::new("Password Reset Expired")))
        } else if self.new_password.is_none() {
            Err(PasswordResetError::Other(ErrJson::new("No new password submitted")))
        } else {
            Ok(())
        }
    }

    /// Second step: the cache lookup of the ticket id. No entry (unknown, expired or
    /// already consumed), a failed lookup, or an entry for another e-mail are all
    /// refused alike; otherwise the answer is the bound e-mail.
    pub fn bind_ticket(&self, lookup: Result<Option<String>, RedisActixError>) -> (r: Result<
        String,
        PasswordResetError,
    >)
        ensures
            lookup is Err ==> r matches Err(PasswordResetError::VerificationError(_)),
            lookup matches Ok(found) ==> (r is Ok <==> ticket_binding(*self, opt_view(found)) is Some),
            lookup matches Ok(found) ==> (r matches Ok(e) ==> Some(e@) == ticket_binding(
                *self,
                opt_view(found),
            )),
            r matches Err(e) ==> e is VerificationError,
    {
        match lookup {
            Ok(Some(email)) => {
                if email == self.email {
                    Ok(email)
                } else {
                    Err(
                        PasswordResetError::VerificationError(
                            ErrJson::new("Email is not the one which requested password reset!"),
                        ),
                    )
                }
            },
            _ => Err(
                PasswordResetError::VerificationError(
                    ErrJson::new("Email is not the one which requested password reset!"),
                ),
            ),
        }
    }

    /// Third step: the account fetched by the bound e-mail. The answer is the new
    /// stored credential, salted with that account's id.
    pub fn new_credential(&self, fetched: Result<User, LoginError>) -> (r: Result<
        String,
        PasswordResetError,
    >)
        ensures
            fetched is Err ==> r matches Err(PasswordResetError::DbError(_)),
            fetched matches Ok(u) ==> (r is Ok <==> self.new_password is Some),
            fetched matches Ok(u) ==> (r matches Ok(h) ==> h@ == credential_of(
                u.id@,
                self.new_password->Some_0@,
            )),
    {
        match fetched {
            Err(e) => Err(PasswordResetError::DbError(ErrJson::new(e.detail().message.as_str()))),
            Ok(u) => match &self.new_password {
                Some(p) => Ok(u.generate_new_password_hash(p.as_str())),
                None => Err(PasswordResetError::Other(ErrJson::new("No new password submitted"))),
            },
        }
    }

    /// Last step: the store's answer to the credential write. Only after a confirmed
    /// write is the ticket consumed, so that a failed write can be retried.
    pub fn finish(self, stored: Result<User, LoginError>) -> (r: (
        Result<PasswordReset, PasswordResetError>,
        Option<RedisCommand>,
    ))
        ensures
            stored is Ok ==> r.0 is Ok,
            stored is Ok ==> (r.1 matches Some(RedisCommand::Del(k)) && k@ == self.reset_id@),
            stored is Err ==> (r.0 matches Err(PasswordResetError::DbError(_)) && r.1 is None),
            r.0 matches Ok(t) ==> (t.reset_id@ == self.reset_id@ && t.email@ == self.email@),
    {
        match stored {
            Ok(_) => {
                let del = self.consume_command();
                (Ok(self), Some(del))
            },
            Err(e) => (
                Err(PasswordResetError::DbError(ErrJson::new(e.detail().message.as_str()))),
                None,
            ),
        }
    }
}

/// Reset single use: once a ticket is consumed (its cache entry removed), a
/// lookup of its id finds nothing, so any later submission of it is refused at
/// the binding step, whatever password it carries.
pub proof fn lemma_ticket_single_use(m: CacheModel, ticket: PasswordReset, later: PasswordReset, cmd: RedisCommand)
    requires
        cmd matches RedisCommand::Del(k) && k@ == ticket.reset_id@,
        later.reset_id@ == ticket.reset_id@,
    ensures
        cache_lookup(apply_command(m, cmd), later.reset_id@) is None,
        ticket_binding(later, cache_lookup(apply_command(m, cmd), later.reset_id@)) is None,
{
}

} // verus!

//! Plain request and response shapes exchanged with the routing layer.
use vstd::prelude::*;
use vstd::string::*;
use crate::token::LoginEmail;

verus! {

/// E-mail and password of a login attempt.
#[derive(Clone, Debug)]
pub struct LoginForm {
    pub email: String,
    pub password: String,
}

impl From<LoginForm> for LoginEmail {
    fn from(login_form: LoginForm) -> (r: LoginEmail) {
        LoginEmail { email: login_form.email }
    }
}

impl vstd::std_specs::convert::FromSpecImpl<LoginForm> for LoginEmail {
    open spec fn obeys_from_spec() -> bool {
        true
    }

    open spec fn from_spec(login_form: LoginForm) -> LoginEmail {
        LoginEmail { email: login_form.email }
    }
}

#[derive(Clone, Debug)]
pub struct QueryUserEmail {
    pub user_email: String,
}

/// A registration request.
#[derive(Clone, Debug)]
pub struct CreateUserForm {
    pub email: String,
    pub password: String,
    pub first_name: Option<String>,
    pub last_name: Option<String>,
}

/// Re-authentication before deleting an account.
#[derive(Clone, Debug)]
pub struct DeleteUserForm {
    pub password: String,
}

#[derive(Clone, Debug)]
pub struct ResetPasswordForm {
    pub new_password: String,
}

/// The first step of a password reset: the requester's e-mail.
#[derive(Clone, Debug)]
pub struct RequestResetPasswordForm {
    pub email: String,
}

#[derive(Clone, Debug)]
pub struct PasswordCheckBody {
    pub password: String,
}

#[derive(Clone, Debug)]
pub struct UsersByIdsBody {
    pub user_ids: Vec<String>,
}

/// A password change by a signed-in user.
#[derive(Clone, Debug)]
pub struct ChangePassword {
    pub current_password: String,
    pub new_password: String,
}

#[derive(Clone, Debug)]
pub struct DeleteUserShoppingResponse {
    pub success: bool,
}

/// Acknowledgement of the notification collaborator.
#[derive(Clone, Debug)]
pub struct SendgridStatus {
    pub message: Option<String>,
}

/// A postal address.
#[derive(Clone, Debug, Default)]
pub struct Address {
    pub city: Option<String>,
    pub country: Option<String>,
    pub line1: Option<String>,
    pub line2: Option<String>,
    pub postal_code: Option<String>,
    pub state: Option<String>,
    /// The town/cho-me (Japan only)
    pub town: Option<String>,
}

/// The answer to a reset request: the ticket id and where it was sent.
#[derive(Clone, Debug)]
pub struct PasswordResetResponse {
    pub reset_id: String,
    pub email_sent_to: String,
    pub status: SendgridStatus,
}

/// A payout method held by the payment service; timestamps in seconds since the epoch.
#[derive(Clone, Debug)]
pub struct PayoutMethod {
    pub id: String,
    /// store_id or affiliate_id are both payee_id
    pub payee_id: String,
    pub created_at: i64,
    pub updated_at: Option<i64>,
    pub payout_type: Option<String>,
    pub payout_email: Option<String>,
    pub payout_processor: Option<String>,
    pub payout_processor_id: Option<String>,
}

/// A request to the notification collaborator; the reset expiry in seconds since the epoch.
#[derive(Clone, Debug)]
pub enum NotifyMessage {
    UserCreated(String),
    SendWelcomeEmail(String),
    SendPasswordResetEmail(String, String, i64),
}

/// Request for a relational-store connection.
#[derive(Clone, Copy, Debug, PartialEq, Eq, Structural)]
pub enum GetPool {
    Postgres,
}

/// Addresses that outbound mail links to.
#[derive(Clone, Debug)]
pub struct DomainVars {
    pub password_reset: String,
    pub url: String,
    pub support_email: String,
}

pub const SITE_URL: &'static str = "https://www.degentracker.com";

pub const PASSWORD_RESET_URL: &'static str = "https://www.degentracker.com/password-reset";

pub const SUPPORT_EMAIL: &'static str = "admin@degentracker.com";

impl DomainVars {
    /// The mail addresses for a deployment environment (`develop` when unset);
    /// production and development currently link to the same site.
    pub fn new(_environment: Option<String>) -> (r: DomainVars)
        ensures
            r.password_reset@ == PASSWORD_RESET_URL@,
            r.url@ == SITE_URL@,
            r.support_email@ == SUPPORT_EMAIL@,
    {
        DomainVars {
            password_reset: String::from_str(PASSWORD_RESET_URL),
            url: String::from_str(SITE_URL),
            support_email: String::from_str(SUPPORT_EMAIL),
        }
    }
}

/// The display name made of optional first and last names.
pub open spec fn full_name(first: Option<Seq<char>>, last: Option<Seq<char>>) -> Seq<char> {
    match (first, last) {
        (Some(f), Some(l)) => f + " "@ + l,
        (Some(f), None) => f,
        (None, Some(l)) => l,
        (None, None) => Seq::empty(),
    }
}

pub open spec fn opt_view(o: Option<String>) -> Option<Seq<char>> {
    match o {
        Some(s) => Some(s@),
        None => None,
    }
}

/// Joins optional first and last names with a space.
pub fn format_name(first_name: Option<String>, last_name: Option<String>) -> (r: String)
    ensures
        r@ == full_name(opt_view(first_name), opt_view(last_name)),
{
    match (first_name, last_name) {
        (Some(f), Some(l)) => {
            let mut s = f;
            s.append(" ");
            s.append(l.as_str());
            s
        },
        (Some(f), None) => f,
        (None, Some(l)) => l,
        (None, None) => String::new(),
    }
}

} // verus!

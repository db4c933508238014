//! Error values of the service and the status class each one answers with.
use vstd::prelude::*;
use vstd::string::*;

verus! {

/// The context recorded in errors raised by this library.
pub const ERROR_CONTEXT: &'static str = "user_auth";

/// A structured `{context, message}` pair carried by most errors.
#[derive(Clone, Debug)]
pub struct ErrJson {
    pub file: String,
    pub message: String,
}

impl ErrJson {
    /// An error record with the given message, in this library's context.
    pub fn new(message: &str) -> (r: ErrJson)
        ensures
            r.message@ == message@,
            r.file@ == ERROR_CONTEXT@,
    {
        ErrJson { file: String::from_str(ERROR_CONTEXT), message: String::from_str(message) }
    }
}

pub const BAD_REQUEST: u16 = 400;
pub const UNAUTHORIZED: u16 = 401;
pub const INTERNAL_SERVER_ERROR: u16 = 500;
pub const GATEWAY_TIMEOUT: u16 = 504;

/// Errors of login, credential checks, token handling and account state.
#[derive(Clone, Debug)]
pub enum LoginError {
    WrongPassword(ErrJson),
    UsernameInvalid(ErrJson),
    EmailInvalid(ErrJson),
    CredentialsError(ErrJson),
    BadRequest(ErrJson),
    NoUserError(ErrJson),
    DatabaseError(ErrJson),
    DecodeError(ErrJson),
    Deserialization(ErrJson),
    SendgridError(ErrJson),
    StripeError(ErrJson),
    Timeout(ErrJson),
    Unauthorized(ErrJson),
    Suspended(ErrJson),
    DuplicateUser(ErrJson),
}

impl LoginError {
    pub open spec fn status_spec(&self) -> u16 {
        match self {
            LoginError::CredentialsError(_) | LoginError::Unauthorized(_) | LoginError::Suspended(
                _,
            ) => UNAUTHORIZED,
            LoginError::DatabaseError(_) | LoginError::DecodeError(_) | LoginError::Deserialization(
                _,
            ) | LoginError::SendgridError(_) | LoginError::StripeError(_) => INTERNAL_SERVER_ERROR,
            LoginError::Timeout(_) => GATEWAY_TIMEOUT,
            _ => BAD_REQUEST,
        }
    }

    /// The HTTP status class that answers this error.
    pub fn status_code(&self) -> (r: u16)
        ensures
            r == self.status_spec(),
    {
        match self {
            LoginError::WrongPassword(_) => BAD_REQUEST,
            LoginError::UsernameInvalid(_) => BAD_REQUEST,
            LoginError::EmailInvalid(_) => BAD_REQUEST,
            LoginError::CredentialsError(_) => UNAUTHORIZED,
            LoginError::BadRequest(_) => BAD_REQUEST,
            LoginError::NoUserError(_) => BAD_REQUEST,
            LoginError::DatabaseError(_) => INTERNAL_SERVER_ERROR,
            LoginError::DecodeError(_) => INTERNAL_SERVER_ERROR,
            LoginError::Deserialization(_) => INTERNAL_SERVER_ERROR,
            LoginError::SendgridError(_) => INTERNAL_SERVER_ERROR,
            LoginError::StripeError(_) => INTERNAL_SERVER_ERROR,
            LoginError::Timeout(_) => GATEWAY_TIMEOUT,
            LoginError::Unauthorized(_) => UNAUTHORIZED,
            LoginError::Suspended(_) => UNAUTHORIZED,
            LoginError::DuplicateUser(_) => BAD_REQUEST,
        }
    }

    /// The error record carried by the error.
    pub fn detail(&self) -> (r: &ErrJson)
        ensures
            r == (match self {
                LoginError::WrongPassword(e) | LoginError::UsernameInvalid(e)
                | LoginError::EmailInvalid(e) | LoginError::CredentialsError(e)
                | LoginError::BadRequest(e) | LoginError::NoUserError(e)
                | LoginError::DatabaseError(e) | LoginError::DecodeError(e)
                | LoginError::Deserialization(e) | LoginError::SendgridError(e)
                | LoginError::StripeError(e) | LoginError::Timeout(e) | LoginError::Unauthorized(e)
                | LoginError::Suspended(e) | LoginError::DuplicateUser(e) => e,
            }),
    {
        match self {
            LoginError::WrongPassword(e) => e,
            LoginError::UsernameInvalid(e) => e,
            LoginError::EmailInvalid(e) => e,
            LoginError::CredentialsError(e) => e,
            LoginError::BadRequest(e) => e,
            LoginError::NoUserError(e) => e,
            LoginError::DatabaseError(e) => e,
            LoginError::DecodeError(e) => e,
            LoginError::Deserialization(e) => e,
            LoginError::SendgridError(e) => e,
            LoginError::StripeError(e) => e,
            LoginError::Timeout(e) => e,
            LoginError::Unauthorized(e) => e,
            LoginError::Suspended(e) => e,
            LoginError::DuplicateUser(e) => e,
        }
    }
}

/// Outcome of a revocation check on a session token.
#[derive(Clone, Copy, Debug, PartialEq, Eq, Structural)]
pub enum CheckJwtError {
    Revoked,
    Missing,
}

impl CheckJwtError {
    /// Both outcomes answer as unauthorized.
    pub fn status_code(&self) -> (r: u16)
        ensures
            r == UNAUTHORIZED,
    {
        UNAUTHORIZED
    }

    /// The status marker of the response body.
    pub fn status_marker(&self) -> (r: &'static str)
        ensures
            r@ == (match self {
                CheckJwtError::Revoked => "REVOKED"@,
                CheckJwtError::Missing => "MISSING"@,
            }),
    {
        match self {
            CheckJwtError::Revoked => "REVOKED",
            CheckJwtError::Missing => "MISSING",
        }
    }
}

/// Failure to obtain a relational-store connection.
#[derive(Clone, Debug)]
pub enum GetPoolError {
    PoolConnection(String),
}

impl GetPoolError {
    pub fn status_code(&self) -> (r: u16)
        ensures
            r == INTERNAL_SERVER_ERROR,
    {
        INTERNAL_SERVER_ERROR
    }
}

/// Errors of the e-mail verification flow.
#[derive(Clone, Debug)]
pub enum EmailVerifyError {
    VerificationError(ErrJson),
    RegistrationExpired(ErrJson),
    RegistrationNotFound(ErrJson),
    ConnectionPoolError(ErrJson),
    EmailSendFailure(ErrJson),
    DeserializationError(ErrJson),
    DbError(ErrJson),
}

impl EmailVerifyError {
    pub open spec fn status_spec(&self) -> u16 {
        match self {
            EmailVerifyError::VerificationError(_) | EmailVerifyError::RegistrationExpired(_)
            | EmailVerifyError::RegistrationNotFound(_) => BAD_REQUEST,
            _ => INTERNAL_SERVER_ERROR,
        }
    }

    pub fn status_code(&self) -> (r: u16)
        ensures
            r == self.status_spec(),
    {
        match self {
            EmailVerifyError::VerificationError(_) => BAD_REQUEST,
            EmailVerifyError::RegistrationExpired(_) => BAD_REQUEST,
            EmailVerifyError::RegistrationNotFound(_) => BAD_REQUEST,
            EmailVerifyError::ConnectionPoolError(_) => INTERNAL_SERVER_ERROR,
            EmailVerifyError::EmailSendFailure(_) => INTERNAL_SERVER_ERROR,
            EmailVerifyError::DeserializationError(_) => INTERNAL_SERVER_ERROR,
            EmailVerifyError::DbError(_) => INTERNAL_SERVER_ERROR,
        }
    }
}

/// Errors of the password-reset handshake.
#[derive(Clone, Debug)]
pub enum PasswordResetError {
    VerificationError(ErrJson),
    ResetExpired(ErrJson),
    EmailNotFound(ErrJson),
    ConnectionPoolError(ErrJson),
    EmailSendFailure(ErrJson),
    DeserializationError(ErrJson),
    DbError(ErrJson),
    Other(ErrJson),
}

impl PasswordResetError {
    pub open spec fn status_spec(&self) -> u16 {
        match self {
            PasswordResetError::VerificationError(_) | PasswordResetError::ResetExpired(_)
            | PasswordResetError::EmailNotFound(_) => BAD_REQUEST,
            _ => INTERNAL_SERVER_ERROR,
        }
    }

    pub fn status_code(&self) -> (r: u16)
        ensures
            r == self.status_spec(),
    {
        match self {
            PasswordResetError::VerificationError(_) => BAD_REQUEST,
            PasswordResetError::ResetExpired(_) => BAD_REQUEST,
            PasswordResetError::EmailNotFound(_) => BAD_REQUEST,
            PasswordResetError::ConnectionPoolError(_) => INTERNAL_SERVER_ERROR,
            PasswordResetError::EmailSendFailure(_) => INTERNAL_SERVER_ERROR,
            PasswordResetError::DeserializationError(_) => INTERNAL_SERVER_ERROR,
            PasswordResetError::DbError(_) => INTERNAL_SERVER_ERROR,
            PasswordResetError::Other(_) => INTERNAL_SERVER_ERROR,
        }
    }
}

/// Errors of calls to neighbouring services.
#[derive(Clone, Debug)]
pub enum RpcError {
    Payment(ErrJson),
    Customer(ErrJson),
    UserShoppingDelete(ErrJson),
    Notify(ErrJson),
}

impl RpcError {
    pub fn status_code(&self) -> (r: u16)
        ensures
            r == INTERNAL_SERVER_ERROR,
    {
        INTERNAL_SERVER_ERROR
    }
}

/// A caller lacks the role an operation needs.
#[derive(Clone, Debug)]
pub enum AuthError {
    NotWorthyEnough(ErrJson),
}

impl AuthError {
    pub fn status_code(&self) -> (r: u16)
        ensures
            r == INTERNAL_SERVER_ERROR,
    {
        INTERNAL_SERVER_ERROR
    }
}

/// Errors reading a pagination cursor.
#[allow(non_camel_case_types)]
#[derive(Clone, Debug)]
pub enum PaginateError {
    b64DecodeError(ErrJson),
    InvalidCursor(ErrJson),
}

impl PaginateError {
    pub fn status_code(&self) -> (r: u16)
        ensures
            r == INTERNAL_SERVER_ERROR,
    {
        INTERNAL_SERVER_ERROR
    }
}

/// Errors reading or writing followed stores.
#[derive(Clone, Debug)]
pub enum FollowingStoreError {
    Read(ErrJson),
    Write(ErrJson),
}

impl FollowingStoreError {
    pub fn status_code(&self) -> (r: u16)
        ensures
            r == INTERNAL_SERVER_ERROR,
    {
        INTERNAL_SERVER_ERROR
    }
}

/// Errors peeking into request variables.
#[derive(Clone, Debug)]
pub enum LensError {
    KeyError(String),
    EmailKeyError(String),
}

impl LensError {
    pub fn status_code(&self) -> (r: u16)
        ensures
            r == BAD_REQUEST,
    {
        BAD_REQUEST
    }
}

/// Errors of the notification collaborator.
#[derive(Clone, Debug)]
pub enum NotifyActixError {
    UserCreated(ErrJson),
    WelcomeEmail(ErrJson),
    PasswordResetEmail(ErrJson),
}

impl NotifyActixError {
    pub fn status_code(&self) -> (r: u16)
        ensures
            r == INTERNAL_SERVER_ERROR,
    {
        INTERNAL_SERVER_ERROR
    }
}

/// Errors of the key/value cache collaborator.
#[derive(Clone, Debug)]
pub enum RedisActixError {
    Get(String),
    SetValue(String),
    Setex(String),
    Del(String),
    Connection(String),
    Other(String),
}

impl RedisActixError {
    pub fn status_code(&self) -> (r: u16)
        ensures
            r == INTERNAL_SERVER_ERROR,
    {
        INTERNAL_SERVER_ERROR
    }
}

} // verus!

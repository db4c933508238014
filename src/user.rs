//! The user record as the core reads it, its public view, and profile updates.
use vstd::prelude::*;
use vstd::string::*;
use crate::credential::{
    base64_bytes_of, check_credential, credential_matches, credential_of, generate_credential,
};
use crate::errors::{ErrJson, LoginError};
use crate::forms::opt_view;
use crate::role::UserRole;
use crate::token::{AuthInfo, LoginEmail};

verus! {

/// Length of the random part of a user id.
pub const USER_ID_LEN: usize = 12;

/// Characters of the random part of a user id: digits and lower-case letters
/// without `0`, `i`, `j`, `o` and `u` (`u` starts every id).
pub open spec fn id_alphabet() -> Seq<char> {
    seq![
        '1', '2', '3', '4', '5', '6', '7', '8', '9', 'a', 'b', 'c', 'd', 'e', 'f', 'g', 'h', 'k',
        'm', 'n', 'p', 'q', 'r', 's', 't', 'v', 'w', 'x', 'z', 'y',
    ]
}

/// Relies on nanoid::format with nanoid's default random source: it draws characters
/// of `alphabet` until the id holds `size` bytes, so `size` ASCII characters.
#[verifier::external_body]
fn nanoid_format(alphabet: &[char], size: usize) -> (r: String)
    requires
        2 <= alphabet@.len() <= 255,
        size > 0,
        forall|i: int| 0 <= i < alphabet@.len() ==> (#[trigger] alphabet@[i] as u32) < 128,
    ensures
        r@.len() == size,
        forall|i: int| 0 <= i < r@.len() ==> alphabet@.contains(#[trigger] r@[i]),
{
    nanoid::format(nanoid::rngs::default, alphabet, size)
}

/// A fresh random id part: twelve characters of the id alphabet.
pub fn generate_nano_user_id() -> (r: String)
    ensures
        r@.len() == USER_ID_LEN,
        forall|i: int| 0 <= i < r@.len() ==> id_alphabet().contains(#[trigger] r@[i]),
{
    let alphabet: Vec<char> = vec![
        '1', '2', '3', '4', '5', '6', '7', '8', '9', 'a', 'b', 'c', 'd', 'e', 'f', 'g', 'h', 'k',
        'm', 'n', 'p', 'q', 'r', 's', 't', 'v', 'w', 'x', 'z', 'y',
    ];
    assert(alphabet@ =~= id_alphabet());
    nanoid_format(alphabet.as_slice(), USER_ID_LEN)
}

/// Whether `s` is an acceptable e-mail address, as validator::validate_email decides.
pub uninterp spec fn email_is_valid(s: Seq<char>) -> bool;

/// Relies on validator::validate_email: a user part, an `@` and a domain name or
/// address literal; the verdict depends on the text alone.
#[verifier::external_body]
pub(crate) fn validate_email(s: &str) -> (r: bool)
    ensures
        r == email_is_valid(s@),
{
    validator::validate_email(s)
}

/// A user account, with timestamps as seconds since the epoch.
#[derive(Clone, Debug)]
pub struct User {
    pub id: String,
    pub email: String,
    pub first_name: Option<String>,
    pub last_name: Option<String>,
    pub password_hash: String,
    pub email_verified: bool,
    pub created_at: Option<i64>,
    pub updated_at: Option<i64>,
    pub is_suspended: bool,
    pub is_deleted: bool,
    pub user_role: Option<UserRole>,
}

/// The state of a freshly registered account.
pub open spec fn is_new_account(
    u: User,
    id: Seq<char>,
    email: Seq<char>,
    password: Seq<char>,
    first_name: Option<Seq<char>>,
    last_name: Option<Seq<char>>,
) -> bool {
    &&& u.id@ == id
    &&& u.email@ == email
    &&& opt_view(u.first_name) == first_name
    &&& opt_view(u.last_name) == last_name
    &&& u.password_hash@ == credential_of(id, password)
    &&& !u.email_verified
    &&& u.created_at is None
    &&& u.updated_at is None
    &&& !u.is_suspended
    &&& !u.is_deleted
    &&& u.user_role == Some(UserRole::USER)
}

/// Whether an id is `u` followed by twelve characters of the id alphabet.
pub open spec fn is_user_id(id: Seq<char>) -> bool {
    &&& id.len() == USER_ID_LEN + 1
    &&& id[0] == 'u'
    &&& forall|i: int| 1 <= i < id.len() ==> id_alphabet().contains(#[trigger] id[i])
}

/// Why an account may not hold a session, if it may not.
pub open spec fn account_block(u: User) -> Option<Seq<char>> {
    if u.is_suspended {
        Some("User is suspended"@)
    } else if u.is_deleted {
        Some("User is deleted"@)
    } else {
        None
    }
}

pub fn clone_opt(o: &Option<String>) -> (r: Option<String>)
    ensures
        opt_view(r) == opt_view(*o),
{
    match o {
        Some(s) => Some(s.clone()),
        None => None,
    }
}

impl User {
    /// A new account with the given id, whose credential is derived with the id as salt.
    pub fn with_id(
        id: String,
        email: String,
        password: &str,
        first_name: Option<String>,
        last_name: Option<String>,
    ) -> (r: User)
        ensures
            is_new_account(r, id@, email@, password@, opt_view(first_name), opt_view(last_name)),
    {
        let password_hash = generate_credential(id.as_str(), password);
        User {
            id,
            email,
            first_name,
            last_name,
            password_hash,
            email_verified: false,
            created_at: None,
            updated_at: None,
            is_suspended: false,
            is_deleted: false,
            user_role: Some(UserRole::USER),
        }
    }

    /// A new account under a fresh random id `u…`.
    pub fn new(
        email: String,
        password: String,
        first_name: Option<String>,
        last_name: Option<String>,
    ) -> (r: User)
        ensures
            is_new_account(r, r.id@, email@, password@, opt_view(first_name), opt_view(last_name)),
            is_user_id(r.id@),
    {
        let mut id = String::from_str("u");
        let random = generate_nano_user_id();
        proof {
            reveal_strlit("u");
        }
        id.append(random.as_str());
        assert forall|i: int| 1 <= i < id@.len() implies id_alphabet().contains(#[trigger] id@[i]) by {
            assert(id@[i] == random@[i - 1]);
        }
        User::with_id(id, email, password.as_str(), first_name, last_name)
    }

    /// The stored credential of `password` for this account.
    pub fn generate_new_password_hash(&self, password: &str) -> (r: String)
        ensures
            r@ == credential_of(self.id@, password@),
    {
        generate_credential(self.id.as_str(), password)
    }

    /// Checks a password against the account's credential.
    pub fn verify_credentials(&self, attempted_password: &str) -> (r: Result<(), LoginError>)
        ensures
            r is Ok <==> credential_matches(self.id@, attempted_password@, self.password_hash@),
            r matches Err(e) ==> (e is DecodeError || e is WrongPassword),
            r matches Err(e) ==> (base64_bytes_of(self.password_hash@) is None <==> e is DecodeError),
    {
        check_credential(self.id.as_str(), attempted_password, self.password_hash.as_str())
    }

    /// Refuses an account whose e-mail is not acceptable.
    pub fn validate(&self) -> (r: Result<(), LoginError>)
        ensures
            r is Ok <==> email_is_valid(self.email@),
            r matches Err(e) ==> e is EmailInvalid,
    {
        if validate_email(self.email.as_str()) {
            Ok(())
        } else {
            Err(LoginError::EmailInvalid(ErrJson::new("email: invalid e-mail address")))
        }
    }

    /// Refuses a suspended or deleted account, with a message telling which.
    pub fn check_account_state(&self) -> (r: Result<(), LoginError>)
        ensures
            r is Ok <==> account_block(*self) is None,
            r matches Err(e) ==> (e matches LoginError::Suspended(j) && Some(j.message@)
                == account_block(*self)),
    {
        if self.is_suspended {
            Err(LoginError::Suspended(ErrJson::new("User is suspended")))
        } else if self.is_deleted {
            Err(LoginError::Suspended(ErrJson::new("User is deleted")))
        } else {
            Ok(())
        }
    }
}

/// The fields of an account that anyone may read.
#[derive(Clone, Debug)]
pub struct UserPublic {
    pub id: Option<String>,
    pub email: Option<String>,
    pub first_name: Option<String>,
    pub last_name: Option<String>,
    pub created_at: Option<i64>,
}

impl From<User> for UserPublic {
    fn from(u: User) -> (r: UserPublic) {
        UserPublic {
            id: Some(u.id),
            email: Some(u.email),
            first_name: u.first_name,
            last_name: u.last_name,
            created_at: u.created_at,
        }
    }
}

impl vstd::std_specs::convert::FromSpecImpl<User> for UserPublic {
    open spec fn obeys_from_spec() -> bool {
        true
    }

    open spec fn from_spec(u: User) -> UserPublic {
        UserPublic {
            id: Some(u.id),
            email: Some(u.email),
            first_name: u.first_name,
            last_name: u.last_name,
            created_at: u.created_at,
        }
    }
}

impl From<User> for AuthInfo {
    fn from(user: User) -> (r: AuthInfo) {
        let user_role = match user.user_role {
            Some(x) => x,
            None => UserRole::USER,
        };
        AuthInfo { user_id: user.id, email: user.email, user_role }
    }
}

impl vstd::std_specs::convert::FromSpecImpl<User> for AuthInfo {
    open spec fn obeys_from_spec() -> bool {
        true
    }

    open spec fn from_spec(user: User) -> AuthInfo {
        AuthInfo {
            user_id: user.id,
            email: user.email,
            user_role: match user.user_role {
                Some(x) => x,
                None => UserRole::USER,
            },
        }
    }
}

impl From<User> for LoginEmail {
    fn from(user: User) -> (r: LoginEmail) {
        LoginEmail { email: user.email }
    }
}

impl vstd::std_specs::convert::FromSpecImpl<User> for LoginEmail {
    open spec fn obeys_from_spec() -> bool {
        true
    }

    open spec fn from_spec(user: User) -> LoginEmail {
        LoginEmail { email: user.email }
    }
}

} // verus!

//! The flat role set carried by users and session tokens.
use vstd::prelude::*;
use vstd::string::*;

verus! {

/// The role of an account; checks on it are equality and membership only.
#[allow(non_camel_case_types)]
#[derive(Clone, Copy, Debug, PartialEq, Eq, Structural)]
pub enum UserRole {
    /// Not logged in
    ANON,
    /// Logged in as somebody
    USER,
    /// Logged in as a dealer
    DEALER,
    /// A platform owner superuser
    PLATFORM_ADMIN,
    /// The system, not a human
    SYSTEM,
}

/// The canonical name of a role.
pub open spec fn role_name(r: UserRole) -> Seq<char> {
    match r {
        UserRole::ANON => "ANON"@,
        UserRole::USER => "USER"@,
        UserRole::DEALER => "DEALER"@,
        UserRole::PLATFORM_ADMIN => "PLATFORM_ADMIN"@,
        UserRole::SYSTEM => "SYSTEM"@,
    }
}

/// The role whose canonical name is exactly `s`, if any.
pub open spec fn role_named(s: Seq<char>) -> Option<UserRole> {
    if s == "ANON"@ {
        Some(UserRole::ANON)
    } else if s == "USER"@ {
        Some(UserRole::USER)
    } else if s == "DEALER"@ {
        Some(UserRole::DEALER)
    } else if s == "PLATFORM_ADMIN"@ {
        Some(UserRole::PLATFORM_ADMIN)
    } else if s == "SYSTEM"@ {
        Some(UserRole::SYSTEM)
    } else {
        None
    }
}

/// Names of different roles differ, so a name identifies its role.
pub proof fn lemma_role_name_parses(r: UserRole)
    ensures
        role_named(role_name(r)) == Some(r),
{
    reveal_strlit("ANON");
    reveal_strlit("USER");
    reveal_strlit("DEALER");
    reveal_strlit("PLATFORM_ADMIN");
    reveal_strlit("SYSTEM");
    assert("ANON"@[0] != "USER"@[0]);
    assert("ANON"@.len() != "DEALER"@.len());
    assert("ANON"@.len() != "PLATFORM_ADMIN"@.len());
    assert("ANON"@.len() != "SYSTEM"@.len());
    assert("USER"@.len() != "DEALER"@.len());
    assert("USER"@.len() != "PLATFORM_ADMIN"@.len());
    assert("USER"@.len() != "SYSTEM"@.len());
    assert("DEALER"@.len() != "PLATFORM_ADMIN"@.len());
    assert("DEALER"@[0] != "SYSTEM"@[0]);
}

/// What `str::to_uppercase` makes of a string.
pub uninterp spec fn uppercase_of(s: Seq<char>) -> Seq<char>;

/// Relies on `str::to_uppercase`: the result depends on the characters alone.
#[verifier::external_body]
fn to_uppercase(s: &str) -> (r: String)
    ensures
        r@ == uppercase_of(s@),
{
    s.to_uppercase()
}

impl UserRole {
    /// The canonical name of the role.
    pub fn as_str(&self) -> (r: &'static str)
        ensures
            r@ == role_name(*self),
    {
        match *self {
            UserRole::ANON => "ANON",
            UserRole::USER => "USER",
            UserRole::DEALER => "DEALER",
            UserRole::PLATFORM_ADMIN => "PLATFORM_ADMIN",
            UserRole::SYSTEM => "SYSTEM",
        }
    }

    /// The canonical name of the role, owned.
    pub fn as_string(&self) -> (r: String)
        ensures
            r@ == role_name(*self),
    {
        self.as_str().to_string()
    }

    /// The role whose canonical name is exactly `s`; `None` for any other text.
    pub fn from_name(s: &str) -> (r: Option<UserRole>)
        ensures
            r == role_named(s@),
    {
        let t = String::from_str(s);
        if t == String::from_str("ANON") {
            Some(UserRole::ANON)
        } else if t == String::from_str("USER") {
            Some(UserRole::USER)
        } else if t == String::from_str("DEALER") {
            Some(UserRole::DEALER)
        } else if t == String::from_str("PLATFORM_ADMIN") {
            Some(UserRole::PLATFORM_ADMIN)
        } else if t == String::from_str("SYSTEM") {
            Some(UserRole::SYSTEM)
        } else {
            None
        }
    }

    /// Reads a stored role name case-insensitively; unknown names read as `ANON`.
    pub fn from_stored(s: &str) -> (r: UserRole)
        ensures
            r == (match role_named(uppercase_of(s@)) {
                Some(x) => x,
                None => UserRole::ANON,
            }),
    {
        let upper = to_uppercase(s);
        match UserRole::from_name(upper.as_str()) {
            Some(x) => x,
            None => UserRole::ANON,
        }
    }
}

impl Default for UserRole {
    /// Accounts are plain users unless stated otherwise.
    fn default() -> (r: UserRole)
        ensures
            r == UserRole::USER,
    {
        UserRole::USER
    }
}

} // verus!

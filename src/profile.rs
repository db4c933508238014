//! Profile changes: the editable fields of an account and how they are prepared.
use vstd::prelude::*;
use vstd::string::*;
use crate::credential::{credential_matches, credential_of, generate_credential};
use crate::errors::{ErrJson, LoginError};
use crate::forms::opt_view;
use crate::role::UserRole;
use crate::user::{clone_opt, email_is_valid, validate_email, User};

verus! {

/// A set of field values to write to an account; `None` leaves a field as stored.
#[derive(Clone, Debug)]
pub struct UpdateUserProfile {
    pub id: String,
    pub password_hash: Option<String>,
    pub email: Option<String>,
    pub password: Option<String>,
    pub first_name: Option<String>,
    pub last_name: Option<String>,
    pub email_verified: Option<bool>,
    pub is_suspended: Option<bool>,
    pub is_deleted: Option<bool>,
    pub user_role: Option<UserRole>,
}

/// Whether `p` holds exactly the current values of `user`.
pub open spec fn mirrors(p: UpdateUserProfile, user: User) -> bool {
    &&& p.id@ == user.id@
    &&& opt_view(p.password_hash) == Some(user.password_hash@)
    &&& opt_view(p.email) == Some(user.email@)
    &&& p.password is None
    &&& opt_view(p.first_name) == opt_view(user.first_name)
    &&& opt_view(p.last_name) == opt_view(user.last_name)
    &&& p.email_verified == Some(user.email_verified)
    &&& p.is_suspended == Some(user.is_suspended)
    &&& p.is_deleted == Some(user.is_deleted)
    &&& p.user_role == user.user_role
}

/// A new value where one is given, else the old one.
pub open spec fn override_with(new: Option<Seq<char>>, old: Option<Seq<char>>) -> Option<Seq<char>> {
    match new {
        Some(v) => Some(v),
        None => old,
    }
}

/// Whether the profile's e-mail, where one is set, is acceptable.
pub open spec fn profile_is_valid(p: UpdateUserProfile) -> bool {
    match p.email {
        Some(e) => email_is_valid(e@),
        None => true,
    }
}

/// The e-mail a deleted account is left with.
pub open spec fn tombstone_email(id: Seq<char>) -> Seq<char> {
    "deleted_"@ + id
}

impl UpdateUserProfile {
    /// A profile holding the current values of `user`.
    pub fn new(user: &User) -> (r: UpdateUserProfile)
        ensures
            mirrors(r, *user),
    {
        UpdateUserProfile {
            id: user.id.clone(),
            password_hash: Some(user.password_hash.clone()),
            email: Some(user.email.clone()),
            password: None,
            first_name: clone_opt(&user.first_name),
            last_name: clone_opt(&user.last_name),
            email_verified: Some(user.email_verified),
            is_suspended: Some(user.is_suspended),
            is_deleted: Some(user.is_deleted),
            user_role: user.user_role,
        }
    }

    pub fn update_email(&mut self, email: String)
        ensures
            *final(self) == (UpdateUserProfile { email: Some(email), ..*old(self) }),
    {
        self.email = Some(email);
    }

    /// Sets the credential derived from `password`, salted with the account id.
    pub fn update_password(&mut self, password: String)
        ensures
            opt_view(final(self).password_hash) == Some(credential_of(old(self).id@, password@)),
            final(self).id == old(self).id,
            final(self).email == old(self).email,
            final(self).password == old(self).password,
            final(self).first_name == old(self).first_name,
            final(self).last_name == old(self).last_name,
            final(self).email_verified == old(self).email_verified,
            final(self).is_suspended == old(self).is_suspended,
            final(self).is_deleted == old(self).is_deleted,
            final(self).user_role == old(self).user_role,
    {
        let new_credential = generate_credential(self.id.as_str(), password.as_str());
        self.password_hash = Some(new_credential);
    }

    pub fn update_first_name(&mut self, first_name: String)
        ensures
            *final(self) == (UpdateUserProfile { first_name: Some(first_name), ..*old(self) }),
    {
        self.first_name = Some(first_name);
    }

    pub fn update_last_name(&mut self, last_name: String)
        ensures
            *final(self) == (UpdateUserProfile { last_name: Some(last_name), ..*old(self) }),
    {
        self.last_name = Some(last_name);
    }

    pub fn update_email_verified(&mut self, email_verified: bool)
        ensures
            *final(self) == (UpdateUserProfile { email_verified: Some(email_verified), ..*old(self) }),
    {
        self.email_verified = Some(email_verified);
    }

    pub fn update_is_suspended(&mut self, is_suspended: bool)
        ensures
            *final(self) == (UpdateUserProfile { is_suspended: Some(is_suspended), ..*old(self) }),
    {
        self.is_suspended = Some(is_suspended);
    }

    pub fn update_is_deleted(&mut self, is_deleted: bool)
        ensures
            *final(self) == (UpdateUserProfile { is_deleted: Some(is_deleted), ..*old(self) }),
    {
        self.is_deleted = Some(is_deleted);
    }

    pub fn update_user_role(&mut self, user_role: UserRole)
        ensures
            *final(self) == (UpdateUserProfile { user_role: Some(user_role), ..*old(self) }),
    {
        self.user_role = Some(user_role);
    }

    /// Refuses a profile whose e-mail is set and not acceptable.
    pub fn validate(&self) -> (r: Result<(), LoginError>)
        ensures
            r is Ok <==> profile_is_valid(*self),
            r matches Err(e) ==> e is EmailInvalid,
    {
        match &self.email {
            Some(e) => {
                if validate_email(e.as_str()) {
                    Ok(())
                } else {
                    Err(LoginError::EmailInvalid(ErrJson::new("email: invalid e-mail address")))
                }
            },
            None => Ok(()),
        }
    }
}

/// The profile to write when a user changes e-mail or names: the stored values,
/// each overridden where a new one is given, refused if the e-mail is not acceptable.
pub fn prepare_profile_update(
    user: &User,
    new_email: Option<String>,
    new_first_name: Option<String>,
    new_last_name: Option<String>,
) -> (r: Result<UpdateUserProfile, LoginError>)
    ensures
        r is Ok <==> email_is_valid(override_with(opt_view(new_email), Some(user.email@))->Some_0),
        r matches Err(e) ==> e is EmailInvalid,
        r matches Ok(p) ==> {
            &&& p.id@ == user.id@
            &&& opt_view(p.email) == override_with(opt_view(new_email), Some(user.email@))
            &&& opt_view(p.first_name) == override_with(opt_view(new_first_name), opt_view(user.first_name))
            &&& opt_view(p.last_name) == override_with(opt_view(new_last_name), opt_view(user.last_name))
            &&& opt_view(p.password_hash) == Some(user.password_hash@)
            &&& p.user_role == user.user_role
            &&& p.email_verified == Some(user.email_verified)
            &&& p.is_suspended == Some(user.is_suspended)
            &&& p.is_deleted == Some(user.is_deleted)
            &&& p.password is None
        },
{
    let mut p = UpdateUserProfile::new(user);
    if let Some(e) = new_email {
        p.update_email(e);
    }
    if let Some(f) = new_first_name {
        p.update_first_name(f);
    }
    if let Some(l) = new_last_name {
        p.update_last_name(l);
    }
    match p.validate() {
        Ok(()) => Ok(p),
        Err(e) => Err(e),
    }
}

/// The profile to write when a user deletes the account, after checking the
/// password: the e-mail becomes `deleted_<id>`, names are cleared and the account
/// is marked deleted (a soft delete; the record stays).
pub fn prepare_soft_delete(user: &User, password: &str) -> (r: Result<UpdateUserProfile, LoginError>)
    ensures
        r is Ok <==> credential_matches(user.id@, password@, user.password_hash@),
        r matches Err(e) ==> e is CredentialsError,
        r matches Ok(p) ==> {
            &&& p.id@ == user.id@
            &&& opt_view(p.email) == Some(tombstone_email(user.id@))
            &&& p.first_name is None
            &&& p.last_name is None
            &&& p.is_deleted == Some(true)
            &&& p.user_role == user.user_role
            &&& opt_view(p.password_hash) == Some(user.password_hash@)
            &&& p.is_suspended == Some(user.is_suspended)
            &&& p.email_verified == Some(user.email_verified)
        },
{
    match user.verify_credentials(password) {
        Err(e) => Err(LoginError::CredentialsError(ErrJson::new(e.detail().message.as_str()))),
        Ok(()) => {
            let mut p = UpdateUserProfile::new(user);
            let mut email = String::from_str("deleted_");
            email.append(user.id.as_str());
            p.email = Some(email);
            p.first_name = None;
            p.last_name = None;
            p.is_deleted = Some(true);
            Ok(p)
        },
    }
}

/// The confirmation returned after an account is deleted.
pub fn deletion_message(user: &User) -> (r: String)
    ensures
        r@ == "Deleted user: "@ + user.email@,
{
    let mut s = String::from_str("Deleted user: ");
    s.append(user.email.as_str());
    s
}

} // verus!

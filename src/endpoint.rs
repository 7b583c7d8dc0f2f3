//! The user endpoints' rules: registration, login and confirmation over a
//! list of user records.

use vstd::prelude::*;
use crate::access::AccessLevel;
use crate::claim::AuthError;
use crate::codec::{count_char, jwt_claims};
use crate::text::str_eq;
use crate::token::{create_token, issued_claims, Principal, Secrets};
use crate::user::{first_named, first_with_id, largest_id, max_id, password_digest, position_of_id, position_of_name, Password, User, UserDto};

verus! {

/// The lower-case form of a text, character by character under Unicode rules.
pub uninterp spec fn lowercase_of(s: Seq<char>) -> Seq<char>;

/// Relies on `str::to_lowercase`: the lower-case form depends on the text alone.
#[verifier::external_body]
fn to_lowercase(s: &str) -> (r: String)
    ensures
        r@ == lowercase_of(s@),
{
    s.to_lowercase()
}

/// Why a user endpoint refused a request.
#[derive(Debug, Clone, Copy, PartialEq, Eq, Structural)]
pub enum UserError {
    /// A user with the same name, ignoring case, exists.
    NameTaken,
    /// No user has the name or id.
    UserNotFound,
    /// The user has not been confirmed yet.
    NotConfirmed,
    /// The password does not match.
    InvalidPassword,
    /// The user is confirmed already.
    AlreadyConfirmed,
    /// The caller's tier is too low.
    Forbidden(AuthError),
    /// Every user id is taken.
    IdsExhausted,
}

/// Whether a user's name equals `name` once both are in lower case.
pub open spec fn name_taken(users: Seq<User>, name: Seq<char>) -> bool {
    exists|i: int| 0 <= i < users.len() && lowercase_of(#[trigger] users[i].name@) == lowercase_of(name)
}

/// What login decides for a user record before a token is minted.
pub open spec fn login_check(user: User, password: Seq<char>) -> Result<(), UserError> {
    if !user.confirmed {
        Err(UserError::NotConfirmed)
    } else if user.password.hash@ != password_digest(password, user.password.salt@) {
        Err(UserError::InvalidPassword)
    } else {
        Ok(())
    }
}

/// The user endpoints over the stored user records.
pub struct UserEndpoint {
    pub users: Vec<User>,
}

impl UserEndpoint {
    /// Endpoints over the given records.
    pub fn new(users: Vec<User>) -> (r: UserEndpoint)
        ensures
            r.users@ == users@,
    {
        UserEndpoint { users }
    }

    /// Whether a user has `name`, ignoring case.
    fn has_name(&self, name: &str) -> (r: bool)
        ensures
            r == name_taken(self.users@, name@),
    {
        let wanted = to_lowercase(name);
        let mut i: usize = 0;
        while i < self.users.len()
            invariant
                i <= self.users@.len(),
                wanted@ == lowercase_of(name@),
                forall|j: int| 0 <= j < i ==> lowercase_of(#[trigger] self.users@[j].name@) != lowercase_of(name@),
            decreases self.users@.len() - i,
        {
            let lower = to_lowercase(self.users[i].name.as_str());
            if str_eq(lower.as_str(), wanted.as_str()) {
                return true;
            }
            i = i + 1;
        }
        false
    }

    /// Registers a new, unconfirmed user at the lowest tier, with the next id
    /// after the largest in use and a freshly salted password. A name taken by
    /// another user, ignoring case, is refused.
    pub fn register(&mut self, body: &UserDto) -> (r: Result<User, UserError>)
        ensures
            name_taken(old(self).users@, body.name@) ==> r == Err::<User, UserError>(UserError::NameTaken),
            !name_taken(old(self).users@, body.name@) && max_id(old(self).users@) >= u32::MAX ==> r == Err::<
                User,
                UserError,
            >(UserError::IdsExhausted),
            r is Err ==> final(self).users@ == old(self).users@,
            !name_taken(old(self).users@, body.name@) && max_id(old(self).users@) < u32::MAX ==> {
                &&& r is Ok
                &&& r->Ok_0.id == max_id(old(self).users@) + 1
                &&& r->Ok_0.name@ == body.name@
                &&& r->Ok_0.access_level == AccessLevel::Registered
                &&& !r->Ok_0.confirmed
                &&& r->Ok_0.password.hash@ == password_digest(body.password@, r->Ok_0.password.salt@)
                &&& final(self).users@ == old(self).users@.push(r->Ok_0)
            },
    {
        if self.has_name(body.name.as_str()) {
            return Err(UserError::NameTaken);
        }
        let top = largest_id(&self.users);
        if top == u32::MAX {
            return Err(UserError::IdsExhausted);
        }
        let user = User {
            id: top + 1,
            name: body.name.clone(),
            password: Password::new(body.password.clone()),
            access_level: AccessLevel::Registered,
            confirmed: false,
        };
        self.users.push(user.clone());
        Ok(user)
    }

    /// Logs in the first user named exactly as in `body`: the user must be
    /// confirmed and the password must match; then a token is minted for it.
    pub fn login(&self, body: &UserDto, secrets: &Secrets) -> (r: Result<String, UserError>)
        ensures
            (forall|j: int| 0 <= j < self.users@.len() ==> (#[trigger] self.users@[j]).name@ != body.name@) ==> r
                == Err::<String, UserError>(UserError::UserNotFound),
            forall|i: int| #[trigger]
                first_named(self.users@, body.name@, i) ==> match login_check(self.users@[i], body.password@) {
                    Err(e) => r == Err::<String, UserError>(e),
                    Ok(_) => r is Ok && count_char(r->Ok_0@, '.') == 2 && exists|now: i64|
                        jwt_claims(r->Ok_0@, secrets.api_secret@) == Some(
                            #[trigger] issued_claims(self.users@[i].id, self.users@[i].access_level, now as int),
                        ),
                },
    {
        let i = match position_of_name(&self.users, body.name.as_str()) {
            Some(i) => i,
            None => return Err(UserError::UserNotFound),
        };
        let user = &self.users[i];
        if !user.confirmed {
            return Err(UserError::NotConfirmed);
        }
        if !user.password.verify(body.password.clone()) {
            return Err(UserError::InvalidPassword);
        }
        Ok(create_token(secrets, user).unwrap())
    }

    /// Confirms the first user with this id, for a caller at the top tier.
    pub fn confirm(&mut self, caller: &Principal, id: u32) -> (r: Result<(), UserError>)
        ensures
            !caller.access_level.spec_meets(AccessLevel::Admin) ==> r == Err::<(), UserError>(
                UserError::Forbidden(AuthError::InsufficientPermissions(caller.access_level, AccessLevel::Admin)),
            ),
            caller.access_level.spec_meets(AccessLevel::Admin) && (forall|j: int|
                0 <= j < old(self).users@.len() ==> (#[trigger] old(self).users@[j]).id != id) ==> r == Err::<
                (),
                UserError,
            >(UserError::UserNotFound),
            forall|i: int| #[trigger]
                first_with_id(old(self).users@, id, i) && caller.access_level.spec_meets(AccessLevel::Admin)
                    ==> if old(self).users@[i].confirmed {
                    r == Err::<(), UserError>(UserError::AlreadyConfirmed)
                } else {
                    r is Ok && final(self).users@ == old(self).users@.update(
                        i,
                        User { confirmed: true, ..old(self).users@[i] },
                    )
                },
            r is Err ==> final(self).users@ == old(self).users@,
    {
        if !caller.access_level.meets(AccessLevel::Admin) {
            return Err(UserError::Forbidden(AuthError::InsufficientPermissions(caller.access_level, AccessLevel::Admin)));
        }
        let i = match position_of_id(&self.users, id) {
            Some(i) => i,
            None => return Err(UserError::UserNotFound),
        };
        if self.users[i].confirmed {
            return Err(UserError::AlreadyConfirmed);
        }
        self.users[i].confirmed = true;
        Ok(())
    }

    /// The caller's own record.
    pub fn get_self(&self, caller: &Principal) -> (r: Result<&User, UserError>)
        ensures
            match r {
                Ok(u) => exists|i: int| first_with_id(self.users@, caller.id, i) && *u == self.users@[i],
                Err(e) => e == UserError::UserNotFound && forall|j: int|
                    0 <= j < self.users@.len() ==> (#[trigger] self.users@[j]).id != caller.id,
            },
    {
        match position_of_id(&self.users, caller.id) {
            Some(i) => Ok(&self.users[i]),
            None => Err(UserError::UserNotFound),
        }
    }
}

} // verus!

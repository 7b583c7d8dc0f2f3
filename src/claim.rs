//! The registry of token claims and the errors of authorization.

use vstd::prelude::*;
use crate::access::{level_of_tag, AccessLevel};
use crate::codec::{entries_map, find_claim};
use crate::text::{decimal, format_i64, format_u32, i64_of, parse_i64, parse_u32, signed_decimal, u32_of, write_decimal};
use crate::user::User;

verus! {

/// A named fact carried by a token. Claims are validated in declaration order.
#[derive(Debug, Clone, Copy, PartialEq, Eq, Structural)]
pub enum Claim {
    Subject,
    Expiration,
    AccessLevel,
}

/// Why a token was not accepted.
#[derive(Debug, Clone, Copy, PartialEq, Eq, Structural)]
pub enum AuthError {
    /// The token does not carry the claim.
    MissingClaim(Claim),
    /// The claim's value cannot be read.
    InvalidFormat(Claim),
    /// The token expired this many seconds ago.
    TokenExpired(u64),
    /// The presented level, then the required one.
    InsufficientPermissions(AccessLevel, AccessLevel),
    /// The token could not be made, or its signature or encoding is not valid.
    TokenError,
}


impl AuthError {
    /// The text of the error that a refused caller is shown.
    pub open spec fn spec_message(self) -> Seq<char> {
        match self {
            AuthError::MissingClaim(c) => "Claim "@ + c.spec_key() + " is missing"@,
            AuthError::InvalidFormat(c) => "Claim "@ + c.spec_key() + " has invalid format"@,
            AuthError::TokenExpired(s) => "Token is expired by "@ + decimal(s as nat) + " seconds"@,
            AuthError::InsufficientPermissions(a, r) => "User has insufficient permissions: "@ + a.spec_name()
                + " < "@ + r.spec_name(),
            AuthError::TokenError => "Invalid token"@,
        }
    }

    /// The text of the error that a refused caller is shown.
    pub fn message(&self) -> (r: String)
        ensures
            r@ == self.spec_message(),
    {
        match self {
            AuthError::MissingClaim(c) => {
                let mut s = String::from_str("Claim ");
                s.append(c.key());
                s.append(" is missing");
                s
            },
            AuthError::InvalidFormat(c) => {
                let mut s = String::from_str("Claim ");
                s.append(c.key());
                s.append(" has invalid format");
                s
            },
            AuthError::TokenExpired(secs) => {
                let mut s = String::from_str("Token is expired by ");
                write_decimal(&mut s, *secs);
                s.append(" seconds");
                s
            },
            AuthError::InsufficientPermissions(a, r) => {
                let mut s = String::from_str("User has insufficient permissions: ");
                s.append(a.name());
                s.append(" < ");
                s.append(r.name());
                s
            },
            AuthError::TokenError => String::from_str("Invalid token"),
        }
    }

    /// The status of the response that a refused caller gets: unauthorized.
    pub fn status_code(&self) -> (r: u16)
        ensures
            r == 401,
    {
        401
    }
}

/// How long an issued token stays valid, in seconds.
pub const TOKEN_TTL: i64 = 1800;

impl Claim {
    /// The claim's key in a token.
    pub open spec fn spec_key(self) -> Seq<char> {
        match self {
            Claim::Subject => seq!['s', 'u', 'b'],
            Claim::Expiration => seq!['e', 'x', 'p'],
            Claim::AccessLevel => seq!['a', 'c', 'l'],
        }
    }

    /// Every claim, in the order in which they are issued and validated.
    pub open spec fn spec_all() -> Seq<Claim> {
        seq![Claim::Subject, Claim::Expiration, Claim::AccessLevel]
    }

    /// The value that the claim takes for a user with this id and tier, issued at `now`.
    pub open spec fn spec_value(self, id: u32, level: AccessLevel, now: int) -> Seq<char> {
        match self {
            Claim::Subject => decimal(id as nat),
            Claim::Expiration => signed_decimal(now + TOKEN_TTL),
            Claim::AccessLevel => level.spec_tag(),
        }
    }

    /// The outcome of checking a presented value of the claim against the
    /// required tier at time `now`.
    pub open spec fn spec_check(self, v: Seq<char>, required: AccessLevel, now: i64) -> Result<(), AuthError> {
        match self {
            Claim::Subject => match u32_of(v) {
                Some(_) => Ok(()),
                None => Err(AuthError::InvalidFormat(self)),
            },
            Claim::Expiration => match i64_of(v) {
                Some(exp) => if exp < now {
                    Err(AuthError::TokenExpired((now - exp) as u64))
                } else {
                    Ok(())
                },
                None => Err(AuthError::InvalidFormat(self)),
            },
            Claim::AccessLevel => match level_of_tag(v) {
                Some(level) => if level.spec_meets(required) {
                    Ok(())
                } else {
                    Err(AuthError::InsufficientPermissions(level, required))
                },
                None => Err(AuthError::InvalidFormat(self)),
            },
        }
    }

    /// The outcome of validating the claim in a claim mapping: missing before
    /// anything else, then the check of its value.
    pub open spec fn spec_validate(
        self,
        m: Map<Seq<char>, Seq<char>>,
        required: AccessLevel,
        now: i64,
    ) -> Result<(), AuthError> {
        if m.contains_key(self.spec_key()) {
            self.spec_check(m[self.spec_key()], required, now)
        } else {
            Err(AuthError::MissingClaim(self))
        }
    }

    /// The claim's key in a token.
    pub fn key(&self) -> (r: &'static str)
        ensures
            r@ == self.spec_key(),
    {
        match self {
            Claim::Subject => {
                proof {
                    reveal_strlit("sub");
                }
                assert("sub"@ =~= self.spec_key());
                "sub"
            },
            Claim::Expiration => {
                proof {
                    reveal_strlit("exp");
                }
                assert("exp"@ =~= self.spec_key());
                "exp"
            },
            Claim::AccessLevel => {
                proof {
                    reveal_strlit("acl");
                }
                assert("acl"@ =~= self.spec_key());
                "acl"
            },
        }
    }

    /// Every claim, in declaration order.
    pub fn all() -> (r: Vec<Claim>)
        ensures
            r@ == Self::spec_all(),
    {
        let r = vec![Claim::Subject, Claim::Expiration, Claim::AccessLevel];
        assert(r@ =~= Self::spec_all());
        r
    }

    /// The value of the claim for `user` in a token issued at `now`; a token
    /// expires `TOKEN_TTL` seconds after it is issued.
    pub fn value(&self, user: &User, now: i64) -> (r: String)
        requires
            now <= i64::MAX - TOKEN_TTL,
        ensures
            r@ == self.spec_value(user.id, user.access_level, now as int),
    {
        match self {
            Claim::Subject => format_u32(user.id),
            Claim::Expiration => format_i64(now + TOKEN_TTL),
            Claim::AccessLevel => user.access_level.tag(),
        }
    }

    /// Checks a presented value of the claim against the required tier at time `now`.
    pub fn check(&self, value: &str, access_level: AccessLevel, now: i64) -> (r: Result<(), AuthError>)
        ensures
            r == self.spec_check(value@, access_level, now),
    {
        match self {
            Claim::Subject => match parse_u32(value) {
                Some(_) => Ok(()),
                None => Err(AuthError::InvalidFormat(*self)),
            },
            Claim::Expiration => match parse_i64(value) {
                Some(exp) => if exp < now {
                    Err(AuthError::TokenExpired((now as i128 - exp as i128) as u64))
                } else {
                    Ok(())
                },
                None => Err(AuthError::InvalidFormat(*self)),
            },
            Claim::AccessLevel => match AccessLevel::from_tag(value) {
                Some(level) => if level.meets(access_level) {
                    Ok(())
                } else {
                    Err(AuthError::InsufficientPermissions(level, access_level))
                },
                None => Err(AuthError::InvalidFormat(*self)),
            },
        }
    }

    /// Validates the claim within a token's claims: a missing claim is reported
    /// before its value is looked at.
    pub fn validate(&self, claims: &Vec<(String, String)>, access_level: AccessLevel, now: i64) -> (r: Result<(), AuthError>)
        ensures
            r == self.spec_validate(entries_map(claims@), access_level, now),
    {
        match find_claim(claims, self.key()) {
            Some(v) => self.check(v.as_str(), access_level, now),
            None => Err(AuthError::MissingClaim(*self)),
        }
    }
}

} // verus!

//! User records and their password credentials.

use vstd::prelude::*;
use crate::access::AccessLevel;
use crate::text::{hex_encode, hex_padded, hex_unpadded, str_eq};
use sha2::{Digest, Sha256};

verus! {

/// The SHA-256 digest of the UTF-8 bytes of a text.
pub uninterp spec fn sha256_of(text: Seq<char>) -> Seq<u8>;

/// Relies on `sha2::Sha256::digest`: the 32-byte SHA-256 digest of the text's
/// UTF-8 bytes.
#[verifier::external_body]
fn sha256(text: &str) -> (r: Vec<u8>)
    ensures
        r@ == sha256_of(text@),
        r@.len() == 32,
{
    Sha256::digest(text.as_bytes()).to_vec()
}

/// Relies on `urandom::csprng` and `Random::fill_bytes`: sixteen bytes from a
/// cryptographically secure generator.
#[verifier::external_body]
fn random_salt() -> (r: Vec<u8>)
    ensures
        r@.len() == 16,
{
    let mut salt = [0u8; 16];
    urandom::csprng().fill_bytes(&mut salt);
    salt.to_vec()
}

/// The stored digest text of `password` with `salt`.
pub open spec fn password_digest(password: Seq<char>, salt: Seq<char>) -> Seq<char> {
    hex_padded(sha256_of(password + salt))
}

/// A password credential: a digest of the password with a random salt.
#[derive(Debug)]
pub struct Password {
    pub hash: String,
    pub salt: String,
}

impl Clone for Password {
    fn clone(&self) -> (r: Password)
        ensures
            r == *self,
    {
        Password { hash: self.hash.clone(), salt: self.salt.clone() }
    }
}

impl Password {
    /// A credential for `password` salted with the hexadecimal text of `salt`.
    pub fn with_salt(password: String, salt: &[u8]) -> (r: Password)
        ensures
            r.salt@ == hex_unpadded(salt@),
            r.hash@ == password_digest(password@, r.salt@),
    {
        let salt = hex_encode(salt, false);
        let salty = password.concat(salt.as_str());
        let digest = sha256(salty.as_str());
        let hash = hex_encode(digest.as_slice(), true);
        Password { hash, salt }
    }

    /// A credential for `password` with a fresh random salt of sixteen bytes.
    pub fn new(password: String) -> (r: Password)
        ensures
            exists|salt: Seq<u8>| salt.len() == 16 && r.salt@ == #[trigger] hex_unpadded(salt),
            r.hash@ == password_digest(password@, r.salt@),
    {
        let salt = random_salt();
        Self::with_salt(password, salt.as_slice())
    }

    /// Whether `password` is the one this credential was made from.
    pub fn verify(&self, password: String) -> (r: bool)
        ensures
            r == (self.hash@ == password_digest(password@, self.salt@)),
    {
        let salty = password.concat(self.salt.as_str());
        let digest = sha256(salty.as_str());
        let hash = hex_encode(digest.as_slice(), true);
        crate::text::str_eq(self.hash.as_str(), hash.as_str())
    }
}

/// A user record.
#[derive(Debug)]
pub struct User {
    pub id: u32,
    pub name: String,
    pub password: Password,
    pub access_level: AccessLevel,
    pub confirmed: bool,
}


impl Clone for User {
    fn clone(&self) -> (r: User)
        ensures
            r == *self,
    {
        User {
            id: self.id,
            name: self.name.clone(),
            password: self.password.clone(),
            access_level: self.access_level,
            confirmed: self.confirmed,
        }
    }
}

/// The largest id among the users, 0 when there are none.
pub open spec fn max_id(users: Seq<User>) -> nat
    decreases users.len(),
{
    if users.len() == 0 {
        0
    } else if users.last().id as nat > max_id(users.drop_last()) {
        users.last().id as nat
    } else {
        max_id(users.drop_last())
    }
}

/// Whether `i` is the first position of a user named exactly `name`.
pub open spec fn first_named(users: Seq<User>, name: Seq<char>, i: int) -> bool {
    &&& 0 <= i < users.len()
    &&& users[i].name@ == name
    &&& forall|j: int| 0 <= j < i ==> (#[trigger] users[j]).name@ != name
}

/// Whether `i` is the first position of a user with this id.
pub open spec fn first_with_id(users: Seq<User>, id: u32, i: int) -> bool {
    &&& 0 <= i < users.len()
    &&& users[i].id == id
    &&& forall|j: int| 0 <= j < i ==> (#[trigger] users[j]).id != id
}

/// The position of the first user with this id.
pub fn position_of_id(users: &Vec<User>, id: u32) -> (r: Option<usize>)
    ensures
        match r {
            Some(i) => first_with_id(users@, id, i as int),
            None => forall|j: int| 0 <= j < users@.len() ==> (#[trigger] users@[j]).id != id,
        },
{
    let mut i: usize = 0;
    while i < users.len()
        invariant
            i <= users@.len(),
            forall|j: int| 0 <= j < i ==> (#[trigger] users@[j]).id != id,
        decreases users@.len() - i,
    {
        if users[i].id == id {
            return Some(i);
        }
        i = i + 1;
    }
    None
}

/// The position of the first user named exactly `name`.
pub fn position_of_name(users: &Vec<User>, name: &str) -> (r: Option<usize>)
    ensures
        match r {
            Some(i) => first_named(users@, name@, i as int),
            None => forall|j: int| 0 <= j < users@.len() ==> (#[trigger] users@[j]).name@ != name@,
        },
{
    let mut i: usize = 0;
    while i < users.len()
        invariant
            i <= users@.len(),
            forall|j: int| 0 <= j < i ==> (#[trigger] users@[j]).name@ != name@,
        decreases users@.len() - i,
    {
        if str_eq(users[i].name.as_str(), name) {
            return Some(i);
        }
        i = i + 1;
    }
    None
}

/// The largest id in use, 0 when there are no users.
pub fn largest_id(users: &Vec<User>) -> (r: u32)
    ensures
        r as nat == max_id(users@),
{
    let mut best: u32 = 0;
    let mut i: usize = 0;
    while i < users.len()
        invariant
            i <= users@.len(),
            best as nat == max_id(users@.take(i as int)),
        decreases users@.len() - i,
    {
        assert(users@.take(i + 1).drop_last() =~= users@.take(i as int));
        if users[i].id > best {
            best = users[i].id;
        }
        i = i + 1;
    }
    assert(users@.take(i as int) =~= users@);
    best
}

/// The name and password that a caller registers or logs in with.
#[derive(Debug)]
pub struct UserDto {
    pub name: String,
    pub password: String,
}

/// The id of the caller that a request was authorized for.
#[derive(Debug, Clone, Copy, PartialEq, Eq, Structural)]
pub struct CurrentUserId(pub u32);

} // verus!

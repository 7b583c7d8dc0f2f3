//! The token codec: signs a claim mapping into a compact token with a shared
//! secret, and checks a token's signature before handing its claims back.

use vstd::prelude::*;
use crate::claim::AuthError;
use hmac::{Hmac, Mac};
use jwt::{SignWithKey, VerifyWithKey};
use sha2::Sha256;
use std::collections::BTreeMap;

verus! {

#[verifier::external_type_specification]
#[verifier::external_body]
pub struct ExJwtError(jwt::Error);

/// The claims of a token as read from a verified token, `None` where the token's
/// signature does not match the secret or the token is malformed.
pub uninterp spec fn jwt_claims(token: Seq<char>, secret: Seq<char>) -> Option<Map<Seq<char>, Seq<char>>>;

/// How many times `c` occurs in `s`.
pub open spec fn count_char(s: Seq<char>, c: char) -> nat
    decreases s.len(),
{
    if s.len() == 0 {
        0
    } else {
        count_char(s.drop_last(), c) + if s.last() == c { 1nat } else { 0nat }
    }
}

/// The characters of a list of claim entries.
pub open spec fn pairs_view(v: Seq<(String, String)>) -> Seq<(Seq<char>, Seq<char>)> {
    v.map_values(|p: (String, String)| (p.0@, p.1@))
}

/// The mapping that a list of entries makes, a later entry replacing an earlier
/// one with the same key.
pub open spec fn claims_map(s: Seq<(Seq<char>, Seq<char>)>) -> Map<Seq<char>, Seq<char>>
    decreases s.len(),
{
    if s.len() == 0 {
        Map::empty()
    } else {
        claims_map(s.drop_last()).insert(s.last().0, s.last().1)
    }
}

/// The mapping that a list of claim entries makes.
pub open spec fn entries_map(v: Seq<(String, String)>) -> Map<Seq<char>, Seq<char>> {
    claims_map(pairs_view(v))
}

/// Relies on `Hmac::<Sha256>::new_from_slice`, which takes a key of any length
/// and never fails, and on `jwt::SignWithKey::sign_with_key` for a
/// `BTreeMap<String, String>` under HS256, which has no failing step: the token
/// is the URL-safe base64 of the header, of the claims and of the signature,
/// joined by two dots, and `jwt::VerifyWithKey::verify_with_key` under the same
/// key accepts it and hands back the same map.
#[verifier::external_body]
fn jwt_sign(claims: &Vec<(String, String)>, secret: &str) -> (r: Result<String, jwt::Error>)
    ensures
        r is Ok,
        r is Ok ==> jwt_claims(r->Ok_0@, secret@) == Some(entries_map(claims@)),
        r is Ok ==> count_char(r->Ok_0@, '.') == 2,
{
    let key: Hmac<Sha256> = Hmac::new_from_slice(secret.as_bytes())?;
    let map: BTreeMap<String, String> = claims.iter().cloned().collect();
    map.sign_with_key(&key)
}

/// Relies on `Hmac::<Sha256>::new_from_slice` and on
/// `jwt::VerifyWithKey::verify_with_key` into a `BTreeMap<String, String>`:
/// the signature is checked before the claims are decoded, and the outcome
/// depends on the token and the secret alone.
#[verifier::external_body]
fn jwt_verify(token: &str, secret: &str) -> (r: Result<Vec<(String, String)>, jwt::Error>)
    ensures
        r is Ok <==> jwt_claims(token@, secret@) is Some,
        r is Ok ==> Some(entries_map(r->Ok_0@)) == jwt_claims(token@, secret@),
{
    let key: Hmac<Sha256> = Hmac::new_from_slice(secret.as_bytes())?;
    let map: BTreeMap<String, String> = token.verify_with_key(&key)?;
    Ok(map.into_iter().collect())
}

/// Signs the claim entries with `secret` into a token of three dot-separated
/// parts; the token verifies under the same secret to the mapping that the
/// entries make. Signing always succeeds.
pub fn sign(claims: &Vec<(String, String)>, secret: &str) -> (r: Result<String, AuthError>)
    ensures
        r is Ok,
        jwt_claims(r->Ok_0@, secret@) == Some(entries_map(claims@)),
        count_char(r->Ok_0@, '.') == 2,
{
    match jwt_sign(claims, secret) {
        Ok(token) => Ok(token),
        Err(_) => Err(AuthError::TokenError),
    }
}

/// Checks the signature of `token` under `secret` and decodes its claims. Any
/// mismatch or malformed token gives the one opaque `TokenError`.
pub fn verify(token: &str, secret: &str) -> (r: Result<Vec<(String, String)>, AuthError>)
    ensures
        match jwt_claims(token@, secret@) {
            Some(m) => r is Ok && entries_map(r->Ok_0@) == m,
            None => r == Err::<Vec<(String, String)>, AuthError>(AuthError::TokenError),
        },
{
    match jwt_verify(token, secret) {
        Ok(claims) => Ok(claims),
        Err(_) => Err(AuthError::TokenError),
    }
}

/// The value that the entries give to `key`: that of the last entry with it.
pub fn find_claim<'a>(claims: &'a Vec<(String, String)>, key: &str) -> (r: Option<&'a String>)
    ensures
        match r {
            Some(v) => entries_map(claims@).contains_key(key@) && entries_map(claims@)[key@] == v@,
            None => !entries_map(claims@).contains_key(key@),
        },
{
    let ghost s = pairs_view(claims@);
    let mut i: usize = claims.len();
    assert(s.take(i as int) =~= s);
    while i > 0
        invariant
            i <= claims@.len(),
            s == pairs_view(claims@),
            claims_map(s).contains_key(key@) == claims_map(s.take(i as int)).contains_key(key@),
            claims_map(s).contains_key(key@) ==> claims_map(s)[key@] == claims_map(s.take(i as int))[key@],
        decreases i,
    {
        let entry = &claims[i - 1];
        assert(s.take(i as int).drop_last() =~= s.take(i - 1));
        assert(s.take(i as int).last() == (entry.0@, entry.1@));
        if crate::text::str_eq(entry.0.as_str(), key) {
            return Some(&entry.1);
        }
        i = i - 1;
    }
    assert(s.take(0) =~= Seq::<(Seq<char>, Seq<char>)>::empty());
    None
}

} // verus!

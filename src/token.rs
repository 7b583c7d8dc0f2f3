//! Issuing bearer tokens for users and authorizing requests that present them.

use vstd::prelude::*;
use crate::access::AccessLevel;
use crate::access::level_of_tag;
use crate::claim::{AuthError, Claim, TOKEN_TTL};
use crate::codec::{count_char, claims_map, entries_map, find_claim, jwt_claims, pairs_view, sign, verify};
use crate::text::{i64_of, lemma_i64_round_trip, lemma_u32_round_trip, parse_u32, signed_decimal, u32_of};
use crate::access::lemma_tags_distinct;
use crate::user::User;

verus! {

/// The process-wide signing secret.
pub struct Secrets {
    pub api_secret: String,
}

impl Secrets {
    /// Wraps a signing secret.
    pub fn new(api_secret: String) -> (r: Secrets)
        ensures
            r.api_secret == api_secret,
    {
        Secrets { api_secret }
    }
}

/// The authenticated identity that a verified token stands for.
#[derive(Debug, Clone, Copy, PartialEq, Eq, Structural)]
pub struct Principal {
    pub id: u32,
    pub access_level: AccessLevel,
}

/// The claim entries of a token issued at `now` to a user with this id and tier.
pub open spec fn issued_entries(id: u32, level: AccessLevel, now: int) -> Seq<(Seq<char>, Seq<char>)> {
    Claim::spec_all().map_values(|c: Claim| (c.spec_key(), c.spec_value(id, level, now)))
}

/// The claim mapping of a token issued at `now` to a user with this id and tier.
pub open spec fn issued_claims(id: u32, level: AccessLevel, now: int) -> Map<Seq<char>, Seq<char>> {
    claims_map(issued_entries(id, level, now))
}

/// Validates the claims `cs` in order and stops at the first failure.
pub open spec fn validate_claims(
    cs: Seq<Claim>,
    m: Map<Seq<char>, Seq<char>>,
    required: AccessLevel,
    now: i64,
) -> Result<(), AuthError>
    decreases cs.len(),
{
    if cs.len() == 0 {
        Ok(())
    } else {
        match cs[0].spec_validate(m, required, now) {
            Err(e) => Err(e),
            Ok(_) => validate_claims(cs.drop_first(), m, required, now),
        }
    }
}

/// The outcome of authorizing a verified claim mapping at the required tier at
/// time `now`: every claim is validated in order, then the subject and the
/// tier are read off the claims.
pub open spec fn authorize_claims(
    m: Map<Seq<char>, Seq<char>>,
    required: AccessLevel,
    now: i64,
) -> Result<Principal, AuthError> {
    match validate_claims(Claim::spec_all(), m, required, now) {
        Err(e) => Err(e),
        Ok(_) => Ok(
            Principal {
                id: u32_of(m[Claim::Subject.spec_key()])->Some_0,
                access_level: level_of_tag(m[Claim::AccessLevel.spec_key()])->Some_0,
            },
        ),
    }
}

/// The outcome of authorizing a token whose decoding gave `decoded`.
pub open spec fn authorize_result(
    decoded: Option<Map<Seq<char>, Seq<char>>>,
    required: AccessLevel,
    now: i64,
) -> Result<Principal, AuthError> {
    match decoded {
        None => Err(AuthError::TokenError),
        Some(m) => authorize_claims(m, required, now),
    }
}

/// The latest second that the clock can read: chrono's dates end before the
/// year 262143, fewer than 10^13 seconds after the Unix epoch.
pub const CLOCK_MAX: i64 = 10_000_000_000_000;

/// Relies on `chrono::Utc::now` and `DateTime::timestamp`: the current time in
/// whole seconds since the Unix epoch. `Utc::now` takes the time since the epoch
/// (it stops on a clock set before 1970) and builds a `DateTime` only within
/// chrono's range of years, so the reading is not negative and below `CLOCK_MAX`.
#[verifier::external_body]
fn now_timestamp() -> (r: i64)
    ensures
        0 <= r < CLOCK_MAX,
{
    chrono::Utc::now().timestamp()
}

/// Mints a token for `user` issued at `now`, signed with `secret`: it carries
/// every claim's value for the user. Minting always succeeds.
pub fn create_token_at(secret: &str, user: &User, now: i64) -> (r: Result<String, AuthError>)
    requires
        now <= i64::MAX - TOKEN_TTL,
    ensures
        r is Ok,
        jwt_claims(r->Ok_0@, secret@) == Some(issued_claims(user.id, user.access_level, now as int)),
        count_char(r->Ok_0@, '.') == 2,
{
    let all = Claim::all();
    let ghost want = issued_entries(user.id, user.access_level, now as int);
    let mut claims: Vec<(String, String)> = Vec::new();
    let mut i: usize = 0;
    while i < all.len()
        invariant
            all@ == Claim::spec_all(),
            i <= all@.len(),
            want == issued_entries(user.id, user.access_level, now as int),
            pairs_view(claims@) =~= want.take(i as int),
            now <= i64::MAX - TOKEN_TTL,
        decreases all@.len() - i,
    {
        let claim = all[i];
        let key = String::from_str(claim.key());
        let value = claim.value(user, now);
        let ghost before = claims@;
        claims.push((key, value));
        assert(want[i as int] == (claim.spec_key(), claim.spec_value(user.id, user.access_level, now as int)));
        assert(claims@ == before.push((key, value)));
        assert(pairs_view(claims@) =~= pairs_view(before).push((key@, value@)));
        assert(want.take(i + 1) =~= want.take(i as int).push(want[i as int]));
        assert(pairs_view(claims@) =~= want.take(i + 1));
        i = i + 1;
    }
    assert(want.take(3) =~= want);
    sign(&claims, secret)
}

/// Mints a token for `user`, issued now. Minting always succeeds.
pub fn create_token(secrets: &Secrets, user: &User) -> (r: Result<String, AuthError>)
    ensures
        r is Ok,
        count_char(r->Ok_0@, '.') == 2,
        exists|now: i64|
            0 <= now < CLOCK_MAX && jwt_claims(r->Ok_0@, secrets.api_secret@) == Some(
                #[trigger] issued_claims(user.id, user.access_level, now as int),
            ),
{
    let now = now_timestamp();
    create_token_at(secrets.api_secret.as_str(), user, now)
}

/// Authorizes `token` at the required tier at time `now`: the signature is
/// checked first, then every claim in order, failing at the first violation.
pub fn authorize_at(token: &str, access_level: AccessLevel, secret: &str, now: i64) -> (r: Result<Principal, AuthError>)
    ensures
        r == authorize_result(jwt_claims(token@, secret@), access_level, now),
{
    let verified = verify(token, secret);
    let claims = match verified {
        Ok(claims) => claims,
        Err(e) => return Err(e),
    };
    let ghost m = entries_map(claims@);
    assert(jwt_claims(token@, secret@) == Some(m));
    let all = Claim::all();
    let mut i: usize = 0;
    assert(Claim::spec_all().skip(0) =~= Claim::spec_all());
    while i < all.len()
        invariant
            all@ == Claim::spec_all(),
            i <= all@.len(),
            m == entries_map(claims@),
            jwt_claims(token@, secret@) == Some(m),
            validate_claims(Claim::spec_all(), m, access_level, now) == validate_claims(
                Claim::spec_all().skip(i as int),
                m,
                access_level,
                now,
            ),
        decreases all@.len() - i,
    {
        let ghost rest = Claim::spec_all().skip(i as int);
        assert(rest.len() > 0);
        assert(rest[0] == all@[i as int]);
        assert(rest.drop_first() =~= Claim::spec_all().skip(i + 1));
        match all[i].validate(&claims, access_level, now) {
            Ok(()) => {},
            Err(e) => {
                assert(validate_claims(rest, m, access_level, now) == Err::<(), AuthError>(e));
                return Err(e);
            },
        }
        i = i + 1;
    }
    assert(Claim::spec_all().skip(3) =~= Seq::<Claim>::empty());
    proof {
        lemma_validated_claims_present(m, access_level, now);
    }
    let sub = find_claim(&claims, Claim::Subject.key());
    let acl = find_claim(&claims, Claim::AccessLevel.key());
    match (sub, acl) {
        (Some(sub), Some(acl)) => match (parse_u32(sub.as_str()), AccessLevel::from_tag(acl.as_str())) {
            (Some(id), Some(level)) => Ok(Principal { id, access_level: level }),
            _ => Err(AuthError::TokenError),
        },
        _ => Err(AuthError::TokenError),
    }
}

/// Claims that passed validation are present and readable.
proof fn lemma_validated_claims_present(m: Map<Seq<char>, Seq<char>>, required: AccessLevel, now: i64)
    requires
        validate_claims(Claim::spec_all(), m, required, now) is Ok,
    ensures
        m.contains_key(Claim::Subject.spec_key()),
        u32_of(m[Claim::Subject.spec_key()]) is Some,
        m.contains_key(Claim::AccessLevel.spec_key()),
        level_of_tag(m[Claim::AccessLevel.spec_key()]) is Some,
{
    lemma_validate_all(m, required, now);
}

/// Authorizes `token` at the required tier, now.
pub fn authorize(token: &str, access_level: AccessLevel, secret: &str) -> (r: Result<Principal, AuthError>)
    ensures
        exists|now: i64| r == #[trigger] authorize_result(jwt_claims(token@, secret@), access_level, now),
{
    let now = now_timestamp();
    authorize_at(token, access_level, secret, now)
}

/// Authorizes `token` at the required tier, now, and gives the caller's id.
pub fn validate_token(secrets: &Secrets, access_level: AccessLevel, token: &str) -> (r: Result<u32, AuthError>)
    ensures
        exists|now: i64| match #[trigger] authorize_result(jwt_claims(token@, secrets.api_secret@), access_level, now) {
            Ok(p) => r == Ok::<u32, AuthError>(p.id),
            Err(e) => r == Err::<u32, AuthError>(e),
        },
{
    match authorize(token, access_level, secrets.api_secret.as_str()) {
        Ok(p) => Ok(p.id),
        Err(e) => Err(e),
    }
}


/// Validating every claim checks the subject, then the expiry, then the tier.
pub proof fn lemma_validate_all(m: Map<Seq<char>, Seq<char>>, required: AccessLevel, now: i64)
    ensures
        validate_claims(Claim::spec_all(), m, required, now) == match Claim::Subject.spec_validate(m, required, now) {
            Err(e) => Err(e),
            Ok(_) => match Claim::Expiration.spec_validate(m, required, now) {
                Err(e) => Err(e),
                Ok(_) => Claim::AccessLevel.spec_validate(m, required, now),
            },
        },
{
    let all = Claim::spec_all();
    let rest1 = all.drop_first();
    let rest2 = rest1.drop_first();
    assert(all[0] == Claim::Subject);
    assert(rest1[0] == Claim::Expiration);
    assert(rest2[0] == Claim::AccessLevel);
    assert(rest2.drop_first() =~= Seq::<Claim>::empty());
    assert(validate_claims(rest2.drop_first(), m, required, now) == Ok::<(), AuthError>(()));
    assert(validate_claims(rest2, m, required, now) == match Claim::AccessLevel.spec_validate(m, required, now) {
        Err(e) => Err(e),
        Ok(_) => Ok::<(), AuthError>(()),
    });
    assert(validate_claims(rest1, m, required, now) == match Claim::Expiration.spec_validate(m, required, now) {
        Err(e) => Err(e),
        Ok(_) => validate_claims(rest2, m, required, now),
    });
    assert(validate_claims(all, m, required, now) == match Claim::Subject.spec_validate(m, required, now) {
        Err(e) => Err(e),
        Ok(_) => validate_claims(rest1, m, required, now),
    });
}

/// A tier's token text reads back as that tier.
pub proof fn lemma_level_of_tag(level: AccessLevel)
    ensures
        level_of_tag(level.spec_tag()) == Some(level),
{
    lemma_tags_distinct(level, AccessLevel::Registered);
    lemma_tags_distinct(level, AccessLevel::Vip);
}

/// The claims of an issued token hold the user's id, the expiry `TOKEN_TTL`
/// seconds after issue, and the user's tier.
pub proof fn lemma_issued_claims(id: u32, level: AccessLevel, now: int)
    ensures
        issued_claims(id, level, now).contains_key(Claim::Subject.spec_key()),
        issued_claims(id, level, now)[Claim::Subject.spec_key()] == Claim::Subject.spec_value(id, level, now),
        issued_claims(id, level, now).contains_key(Claim::Expiration.spec_key()),
        issued_claims(id, level, now)[Claim::Expiration.spec_key()] == signed_decimal(now + TOKEN_TTL),
        issued_claims(id, level, now).contains_key(Claim::AccessLevel.spec_key()),
        issued_claims(id, level, now)[Claim::AccessLevel.spec_key()] == level.spec_tag(),
{
    let e = issued_entries(id, level, now);
    let sub = Claim::Subject.spec_key();
    let exp = Claim::Expiration.spec_key();
    let acl = Claim::AccessLevel.spec_key();
    assert(sub[0] != exp[0] && sub[0] != acl[0] && exp[0] != acl[0]);
    assert(e.len() == 3);
    assert(e.drop_last().drop_last().drop_last() =~= Seq::<(Seq<char>, Seq<char>)>::empty());
    assert(e[0] == (sub, Claim::Subject.spec_value(id, level, now)));
    assert(e[1] == (exp, Claim::Expiration.spec_value(id, level, now)));
    assert(e[2] == (acl, Claim::AccessLevel.spec_value(id, level, now)));
    assert(e.drop_last().last() == e[1]);
    assert(e.drop_last().drop_last().last() == e[0]);
    assert(claims_map(e.drop_last().drop_last().drop_last()) =~= Map::<Seq<char>, Seq<char>>::empty());
    let m0 = claims_map(e.drop_last().drop_last());
    let m1 = claims_map(e.drop_last());
    assert(m0 =~= Map::<Seq<char>, Seq<char>>::empty().insert(sub, e[0].1));
    assert(m1 =~= m0.insert(exp, e[1].1));
    assert(claims_map(e) =~= m1.insert(acl, e[2].1));
}

/// A token issued to a user at `now` is accepted until it expires at any tier
/// that the user's tier meets, and refused for insufficient permissions at any
/// other; an accepted token stands for the user's id and tier.
pub proof fn lemma_issued_level_decides(id: u32, presented: AccessLevel, required: AccessLevel, now: i64, later: i64)
    requires
        now <= i64::MAX - TOKEN_TTL,
        later <= now + TOKEN_TTL,
    ensures
        authorize_claims(issued_claims(id, presented, now as int), required, later) == if presented.spec_meets(required) {
            Ok::<Principal, AuthError>(Principal { id, access_level: presented })
        } else {
            Err::<Principal, AuthError>(AuthError::InsufficientPermissions(presented, required))
        },
{
    let m = issued_claims(id, presented, now as int);
    lemma_issued_claims(id, presented, now as int);
    lemma_u32_round_trip(id);
    lemma_i64_round_trip((now + TOKEN_TTL) as i64);
    lemma_level_of_tag(presented);
    lemma_validate_all(m, required, later);
}

/// A token issued to a user verifies, until it expires, to the user's id and tier
/// when checked at the user's own tier.
pub proof fn lemma_issued_token_authorizes(id: u32, level: AccessLevel, now: i64, later: i64)
    requires
        now <= i64::MAX - TOKEN_TTL,
        later <= now + TOKEN_TTL,
    ensures
        authorize_claims(issued_claims(id, level, now as int), level, later) == Ok::<Principal, AuthError>(
            Principal { id, access_level: level },
        ),
{
    lemma_issued_level_decides(id, level, level, now, later);
}

/// A token checked after its expiry is refused, by the number of seconds it is
/// past its expiry.
pub proof fn lemma_issued_token_expires(id: u32, level: AccessLevel, required: AccessLevel, now: i64, later: i64)
    requires
        now <= i64::MAX - TOKEN_TTL,
        later > now + TOKEN_TTL,
    ensures
        authorize_claims(issued_claims(id, level, now as int), required, later) == Err::<Principal, AuthError>(
            AuthError::TokenExpired((later - (now + TOKEN_TTL)) as u64),
        ),
{
    let m = issued_claims(id, level, now as int);
    lemma_issued_claims(id, level, now as int);
    lemma_u32_round_trip(id);
    lemma_i64_round_trip((now + TOKEN_TTL) as i64);
    lemma_validate_all(m, required, later);
}

/// Claims whose subject is readable and whose expiry is one second before `now`
/// are refused as expired by one second, whatever else they hold.
pub proof fn lemma_expired_claims_refused(m: Map<Seq<char>, Seq<char>>, required: AccessLevel, now: i64)
    requires
        now > i64::MIN,
        m.contains_key(Claim::Subject.spec_key()),
        u32_of(m[Claim::Subject.spec_key()]) is Some,
        m.contains_key(Claim::Expiration.spec_key()),
        m[Claim::Expiration.spec_key()] == signed_decimal(now - 1),
    ensures
        authorize_claims(m, required, now) == Err::<Principal, AuthError>(AuthError::TokenExpired(1)),
{
    lemma_i64_round_trip((now - 1) as i64);
    lemma_validate_all(m, required, now);
}

/// Raising the presented tier never turns an acceptance into a refusal: claims
/// accepted at a required tier are accepted, with the same result, at every
/// lower required tier.
pub proof fn lemma_access_monotonic(m: Map<Seq<char>, Seq<char>>, low: AccessLevel, high: AccessLevel, now: i64)
    requires
        low.spec_rank() <= high.spec_rank(),
        authorize_claims(m, high, now) is Ok,
    ensures
        authorize_claims(m, low, now) == authorize_claims(m, high, now),
{
    lemma_validate_all(m, high, now);
    lemma_validate_all(m, low, now);
}

/// Tokens issued to the same user at different times carry different claims,
/// so no token verifies to both.
pub proof fn lemma_reissued_tokens_differ(id: u32, level: AccessLevel, now1: i64, now2: i64)
    requires
        now1 != now2,
        now1 <= i64::MAX - TOKEN_TTL,
        now2 <= i64::MAX - TOKEN_TTL,
    ensures
        issued_claims(id, level, now1 as int) != issued_claims(id, level, now2 as int),
        forall|t1: Seq<char>, t2: Seq<char>, secret: Seq<char>|
            jwt_claims(t1, secret) == Some(#[trigger] issued_claims(id, level, now1 as int))
                && jwt_claims(t2, secret) == Some(#[trigger] issued_claims(id, level, now2 as int)) ==> t1 != t2,
{
    lemma_issued_claims(id, level, now1 as int);
    lemma_issued_claims(id, level, now2 as int);
    lemma_i64_round_trip((now1 + TOKEN_TTL) as i64);
    lemma_i64_round_trip((now2 + TOKEN_TTL) as i64);
    let exp = Claim::Expiration.spec_key();
    assert(issued_claims(id, level, now1 as int)[exp] != issued_claims(id, level, now2 as int)[exp]);
}

} // verus!

use petompp_auth::access::AccessLevel;
use petompp_auth::claim::{AuthError, Claim, TOKEN_TTL};
use petompp_auth::codec::{find_claim, sign, verify};
use petompp_auth::text::format_i64;
use petompp_auth::token::{authorize, authorize_at, create_token, create_token_at, validate_token, Principal, Secrets};
use petompp_auth::user::{Password, User};

const SECRET: &str = "test-secret";

fn user(id: u32, level: AccessLevel) -> User {
    User {
        id,
        name: "registered".to_string(),
        password: Password::with_salt("password".to_string(), &[1, 2, 3]),
        access_level: level,
        confirmed: true,
    }
}

fn entries(sub: &str, exp: &str, acl: &str) -> Vec<(String, String)> {
    vec![
        ("sub".to_string(), sub.to_string()),
        ("exp".to_string(), exp.to_string()),
        ("acl".to_string(), acl.to_string()),
    ]
}

#[test]
fn issued_token_authorizes_at_own_level() {
    let now: i64 = 1_700_000_000;
    for level in AccessLevel::all() {
        let token = create_token_at(SECRET, &user(42, level), now).unwrap();
        let p = authorize_at(&token, level, SECRET, now).unwrap();
        assert_eq!(p, Principal { id: 42, access_level: level });
        let p = authorize_at(&token, level, SECRET, now + TOKEN_TTL).unwrap();
        assert_eq!(p.id, 42);
    }
}

#[test]
fn issued_token_with_clock_authorizes() {
    let secrets = Secrets::new(SECRET.to_string());
    let token = create_token(&secrets, &user(7, AccessLevel::Vip)).unwrap();
    assert_eq!(validate_token(&secrets, AccessLevel::Vip, &token), Ok(7));
    assert_eq!(
        authorize(&token, AccessLevel::Registered, SECRET),
        Ok(Principal { id: 7, access_level: AccessLevel::Vip })
    );
}

#[test]
fn token_has_three_segments() {
    let token = create_token_at(SECRET, &user(1, AccessLevel::Registered), 1000).unwrap();
    assert_eq!(token.chars().filter(|c| *c == '.').count(), 2);
}

#[test]
fn issued_claims_are_sub_exp_acl() {
    let token = create_token_at(SECRET, &user(42, AccessLevel::Admin), 1000).unwrap();
    let claims = verify(&token, SECRET).unwrap();
    assert_eq!(find_claim(&claims, "sub").unwrap(), "42");
    assert_eq!(find_claim(&claims, "exp").unwrap(), "2800");
    assert_eq!(find_claim(&claims, "acl").unwrap(), "\"Admin\"");
    assert_eq!(claims.len(), 3);
}

#[test]
fn other_secret_is_refused() {
    let token = create_token_at(SECRET, &user(1, AccessLevel::Admin), 1000).unwrap();
    for other in ["", "test-secreT", "test-secret-2", "another"] {
        assert_eq!(authorize_at(&token, AccessLevel::Registered, other, 1000), Err(AuthError::TokenError));
        assert_eq!(verify(&token, other), Err(AuthError::TokenError));
    }
}

#[test]
fn tampered_signature_is_refused() {
    let token = create_token_at(SECRET, &user(1, AccessLevel::Admin), 1000).unwrap();
    let start = token.rfind('.').unwrap() + 1;
    let bytes = token.as_bytes();
    for i in start..bytes.len() {
        for flip in [1u8, 2, 4, 8, 16, 32] {
            let mut changed = bytes.to_vec();
            changed[i] ^= flip;
            if let Ok(t) = String::from_utf8(changed) {
                assert_eq!(authorize_at(&t, AccessLevel::Registered, SECRET, 1000), Err(AuthError::TokenError));
            }
        }
    }
}

#[test]
fn tampered_payload_is_refused() {
    let token = create_token_at(SECRET, &user(1, AccessLevel::Registered), 1000).unwrap();
    let first = token.find('.').unwrap() + 1;
    let mut changed = token.clone().into_bytes();
    changed[first + 3] = if changed[first + 3] == b'A' { b'B' } else { b'A' };
    let t = String::from_utf8(changed).unwrap();
    assert_eq!(verify(&t, SECRET), Err(AuthError::TokenError));
}

#[test]
fn expired_claim_is_refused() {
    let now: i64 = 1_700_000_000;
    let fabricated = entries("5", &format_i64(now - 1), "\"Admin\"");
    let token = sign(&fabricated, SECRET).unwrap();
    assert_eq!(authorize_at(&token, AccessLevel::Registered, SECRET, now), Err(AuthError::TokenExpired(1)));
    let issued = create_token_at(SECRET, &user(5, AccessLevel::Admin), now).unwrap();
    assert!(authorize_at(&issued, AccessLevel::Admin, SECRET, now).is_ok());
    assert_eq!(
        authorize_at(&issued, AccessLevel::Admin, SECRET, now + TOKEN_TTL + 10),
        Err(AuthError::TokenExpired(10))
    );
}

#[test]
fn access_levels_are_ordered() {
    let now: i64 = 500;
    let low = create_token_at(SECRET, &user(3, AccessLevel::Registered), now).unwrap();
    assert!(authorize_at(&low, AccessLevel::Registered, SECRET, now).is_ok());
    assert_eq!(
        authorize_at(&low, AccessLevel::Vip, SECRET, now),
        Err(AuthError::InsufficientPermissions(AccessLevel::Registered, AccessLevel::Vip))
    );
    assert_eq!(
        authorize_at(&low, AccessLevel::Admin, SECRET, now),
        Err(AuthError::InsufficientPermissions(AccessLevel::Registered, AccessLevel::Admin))
    );
    let high = create_token_at(SECRET, &user(3, AccessLevel::Admin), now).unwrap();
    for required in AccessLevel::all() {
        assert_eq!(
            authorize_at(&high, required, SECRET, now),
            Ok(Principal { id: 3, access_level: AccessLevel::Admin })
        );
    }
    assert!(AccessLevel::Registered < AccessLevel::Vip && AccessLevel::Vip < AccessLevel::Admin);
}

#[test]
fn missing_claims_are_reported_in_order() {
    let token = sign(&vec![("acl".to_string(), "\"Admin\"".to_string())], SECRET).unwrap();
    assert_eq!(authorize_at(&token, AccessLevel::Registered, SECRET, 0), Err(AuthError::MissingClaim(Claim::Subject)));
    let token = sign(&vec![("sub".to_string(), "1".to_string())], SECRET).unwrap();
    assert_eq!(
        authorize_at(&token, AccessLevel::Registered, SECRET, 0),
        Err(AuthError::MissingClaim(Claim::Expiration))
    );
    let token = sign(&vec![("sub".to_string(), "1".to_string()), ("exp".to_string(), "10".to_string())], SECRET).unwrap();
    assert_eq!(
        authorize_at(&token, AccessLevel::Registered, SECRET, 0),
        Err(AuthError::MissingClaim(Claim::AccessLevel))
    );
}

#[test]
fn invalid_formats_are_reported_in_order() {
    let token = sign(&entries("abc", "nope", "\"Root\""), SECRET).unwrap();
    assert_eq!(authorize_at(&token, AccessLevel::Registered, SECRET, 0), Err(AuthError::InvalidFormat(Claim::Subject)));
    let token = sign(&entries("4294967296", "10", "\"Vip\""), SECRET).unwrap();
    assert_eq!(authorize_at(&token, AccessLevel::Registered, SECRET, 0), Err(AuthError::InvalidFormat(Claim::Subject)));
    let token = sign(&entries("1", "nope", "\"Root\""), SECRET).unwrap();
    assert_eq!(
        authorize_at(&token, AccessLevel::Registered, SECRET, 0),
        Err(AuthError::InvalidFormat(Claim::Expiration))
    );
    let token = sign(&entries("1", "10", "Vip"), SECRET).unwrap();
    assert_eq!(
        authorize_at(&token, AccessLevel::Registered, SECRET, 0),
        Err(AuthError::InvalidFormat(Claim::AccessLevel))
    );
    let token = sign(&entries("1", "0", "nope"), SECRET).unwrap();
    assert_eq!(authorize_at(&token, AccessLevel::Registered, SECRET, 5), Err(AuthError::TokenExpired(5)));
}

#[test]
fn padded_level_claim_is_read_as_json() {
    let token = sign(&entries("1", "10", " \"Vip\"\n"), SECRET).unwrap();
    assert_eq!(
        authorize_at(&token, AccessLevel::Vip, SECRET, 0),
        Ok(Principal { id: 1, access_level: AccessLevel::Vip })
    );
}

#[test]
fn signing_always_succeeds() {
    for secret in ["", "k", "a much longer secret than the sixty-four byte block of sha-256 hmac keys"] {
        let token = sign(&vec![], secret).unwrap();
        assert_eq!(token.chars().filter(|c| *c == '.').count(), 2);
        assert_eq!(verify(&token, secret), Ok(vec![]));
    }
}

#[test]
fn garbage_token_is_refused() {
    for t in ["", "a.b.c", "not a token", "..", "x.y"] {
        assert_eq!(authorize_at(t, AccessLevel::Registered, SECRET, 0), Err(AuthError::TokenError));
    }
}

#[test]
fn later_entry_replaces_earlier() {
    let claims = vec![("sub".to_string(), "1".to_string()), ("sub".to_string(), "2".to_string())];
    assert_eq!(find_claim(&claims, "sub").unwrap(), "2");
    assert!(find_claim(&claims, "exp").is_none());
    let token = sign(&claims, SECRET).unwrap();
    let back = verify(&token, SECRET).unwrap();
    assert_eq!(back, vec![("sub".to_string(), "2".to_string())]);
}

#[test]
fn reissued_tokens_differ() {
    let u = user(9, AccessLevel::Vip);
    let a = create_token_at(SECRET, &u, 100).unwrap();
    let b = create_token_at(SECRET, &u, 101).unwrap();
    assert_ne!(a, b);
}

#[test]
fn claim_keys_and_checks() {
    assert_eq!(Claim::Subject.key(), "sub");
    assert_eq!(Claim::Expiration.key(), "exp");
    assert_eq!(Claim::AccessLevel.key(), "acl");
    assert_eq!(Claim::all(), vec![Claim::Subject, Claim::Expiration, Claim::AccessLevel]);
    assert_eq!(Claim::Subject.check("+12", AccessLevel::Admin, 0), Ok(()));
    assert_eq!(Claim::Expiration.check("-5", AccessLevel::Admin, -5), Ok(()));
    assert_eq!(Claim::Expiration.check("-5", AccessLevel::Admin, -4), Err(AuthError::TokenExpired(1)));
    assert_eq!(
        Claim::Expiration.check("-9223372036854775808", AccessLevel::Admin, 9223372036854775807),
        Err(AuthError::TokenExpired(u64::MAX))
    );
    assert_eq!(Claim::AccessLevel.check("\"Vip\"", AccessLevel::Vip, 0), Ok(()));
    let u = user(12, AccessLevel::Vip);
    assert_eq!(Claim::Subject.value(&u, 0), "12");
    assert_eq!(Claim::Expiration.value(&u, -1800), "0");
    assert_eq!(Claim::Expiration.value(&u, -2000), "-200");
    assert_eq!(Claim::AccessLevel.value(&u, 0), "\"Vip\"");
}

#[test]
fn error_messages() {
    assert_eq!(AuthError::MissingClaim(Claim::Subject).message(), "Claim sub is missing");
    assert_eq!(AuthError::InvalidFormat(Claim::Expiration).message(), "Claim exp has invalid format");
    assert_eq!(AuthError::TokenExpired(61).message(), "Token is expired by 61 seconds");
    assert_eq!(
        AuthError::InsufficientPermissions(AccessLevel::Registered, AccessLevel::Admin).message(),
        "User has insufficient permissions: Registered < Admin"
    );
    assert_eq!(AuthError::TokenError.message(), "Invalid token");
    assert_eq!(AuthError::TokenError.status_code(), 401);
}

#[test]
fn access_level_tags() {
    assert_eq!(AccessLevel::Admin.tag(), "\"Admin\"");
    assert_eq!(AccessLevel::from_tag("\"Registered\""), Some(AccessLevel::Registered));
    assert_eq!(AccessLevel::from_tag("Registered"), None);
    assert_eq!(AccessLevel::from_tag(" \"Vip\" "), Some(AccessLevel::Vip));
    assert_eq!(AccessLevel::from_tag("\"\\u0041dmin\""), Some(AccessLevel::Admin));
    assert_eq!(AccessLevel::from_tag("{\"Vip\": null}"), Some(AccessLevel::Vip));
    assert_eq!(AccessLevel::from_tag("{\"Vip\": 1}"), None);
    assert_eq!(AccessLevel::from_tag("{\"Vip\": null, \"Admin\": null}"), None);
    assert_eq!(AccessLevel::from_tag("\"Root\""), None);
    assert_eq!(AccessLevel::from_name("Admin"), Some(AccessLevel::Admin));
    assert_eq!(AccessLevel::from_name("admin"), None);
    assert!(AccessLevel::Admin.meets(AccessLevel::Vip));
    assert!(!AccessLevel::Vip.meets(AccessLevel::Admin));
    assert_eq!(AccessLevel::default(), AccessLevel::Registered);
    assert_eq!(AccessLevel::Vip.name(), "Vip");
}

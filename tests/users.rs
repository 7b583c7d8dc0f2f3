use petompp_auth::access::AccessLevel;
use petompp_auth::claim::AuthError;
use petompp_auth::data_source::{DataContext, DataSourceError, DataSourceManager, UserContext};
use petompp_auth::endpoint::{UserEndpoint, UserError};
use petompp_auth::memory::{MemoryConfig, MemoryDataSource};
use petompp_auth::token::{authorize, create_token, validate_token, Principal, Secrets};
use petompp_auth::user::{Password, User, UserDto};

const SECRET: &str = "users-secret";

fn secrets() -> Secrets {
    Secrets::new(SECRET.to_string())
}

fn user(id: u32, name: &str, level: AccessLevel, confirmed: bool) -> User {
    User {
        id,
        name: name.to_string(),
        password: Password::new("password".to_string()),
        access_level: level,
        confirmed,
    }
}

fn dto(name: &str, password: &str) -> UserDto {
    UserDto { name: name.to_string(), password: password.to_string() }
}

fn token_for(u: &User) -> String {
    create_token(&secrets(), u).unwrap()
}

#[test]
fn test_confirm_user() {
    for acl in AccessLevel::all() {
        let caller = user(1, "registered", acl, true);
        let mut endpoint = UserEndpoint::new(vec![caller.clone(), user(2, "notconfirmed", AccessLevel::Registered, false)]);
        let token = token_for(&caller);
        let outcome = match authorize(&token, AccessLevel::Admin, SECRET) {
            Ok(p) => endpoint.confirm(&p, 2).map_err(|_| 400),
            Err(_) => Err(401),
        };
        let expected = match acl {
            AccessLevel::Admin => Ok(()),
            _ => Err(401),
        };
        assert_eq!(outcome, expected);
        assert_eq!(endpoint.users[1].confirmed, acl == AccessLevel::Admin);
    }
}

#[test]
fn test_get_user() {
    for acl in AccessLevel::all() {
        let caller = user(1, "registered", acl, true);
        let token = token_for(&caller);
        let expected_ok = acl == AccessLevel::Admin;
        assert_eq!(validate_token(&secrets(), AccessLevel::Admin, &token).is_ok(), expected_ok);
    }
}

#[test]
fn test_get_users() {
    for acl in AccessLevel::all() {
        let caller = user(1, "registered", acl, true);
        let token = token_for(&caller);
        let outcome = validate_token(&secrets(), AccessLevel::Admin, &token);
        match acl {
            AccessLevel::Admin => assert_eq!(outcome, Ok(1)),
            _ => assert_eq!(outcome, Err(AuthError::InsufficientPermissions(acl, AccessLevel::Admin))),
        }
    }
}

#[test]
fn test_vip() {
    for acl in AccessLevel::all() {
        let caller = user(1, "registered", acl, true);
        let token = token_for(&caller);
        let expected_ok = acl == AccessLevel::Vip || acl == AccessLevel::Admin;
        assert_eq!(validate_token(&secrets(), AccessLevel::Vip, &token).is_ok(), expected_ok);
    }
}

#[test]
fn test_register() {
    let mut endpoint = UserEndpoint::new(vec![]);
    let created = endpoint.register(&dto("registered", "password")).unwrap();
    assert_eq!(created.id, 1);
    assert_eq!(created.name, "registered");
    assert!(!created.confirmed);
    assert_eq!(created.access_level, AccessLevel::Registered);
    assert!(created.password.verify("password".to_string()));
    assert_eq!(endpoint.users.len(), 1);
}

#[test]
fn test_login() {
    let endpoint = UserEndpoint::new(vec![user(1, "registered", AccessLevel::Registered, true)]);
    let token = endpoint.login(&dto("registered", "password"), &secrets()).unwrap();
    assert_eq!(token.chars().filter(|c| *c == '.').count(), 2);
}

#[test]
fn test_get_self() {
    let caller = user(1, "registered", AccessLevel::Registered, true);
    let endpoint = UserEndpoint::new(vec![caller.clone()]);
    let token = token_for(&caller);
    let p = authorize(&token, AccessLevel::Registered, SECRET).unwrap();
    assert_eq!(endpoint.get_self(&p).unwrap().name, "registered");
    let stranger = Principal { id: 5, access_level: AccessLevel::Registered };
    assert_eq!(endpoint.get_self(&stranger).err(), Some(UserError::UserNotFound));
}

#[test]
fn activate_test() {
    for acl in AccessLevel::all() {
        let caller = user(1, "caller", acl, true);
        let config = MemoryConfig { should_fail: false, users: vec![user(1, "caller", acl, false)] };
        let manager: DataSourceManager<MemoryDataSource, MemoryConfig, MemoryConfig> =
            DataSourceManager::new(config).unwrap();
        let mut source = manager.create().unwrap();
        let token = token_for(&caller);
        let outcome = match validate_token(&secrets(), AccessLevel::Admin, &token) {
            Ok(_) => {
                let found = source.get_user_by_id(1).unwrap();
                let activated = User { confirmed: true, ..found };
                source.update_user(1, &activated).map(|_| 200).unwrap_or(500)
            }
            Err(_) => 401,
        };
        let expected = match acl {
            AccessLevel::Admin => 200,
            _ => 401,
        };
        assert_eq!(outcome, expected);
    }
}

#[test]
fn activate_test_no_auth() {
    assert_eq!(validate_token(&secrets(), AccessLevel::Admin, ""), Err(AuthError::TokenError));
}

#[test]
fn register_login_confirm_scenario() {
    let mut endpoint = UserEndpoint::new(vec![user(1, "root", AccessLevel::Admin, true)]);
    let alice = endpoint.register(&dto("alice", "pw1")).unwrap();
    assert_eq!(alice.id, 2);
    assert!(endpoint.login(&dto("alice", "pw2"), &secrets()).is_err());
    assert_eq!(endpoint.login(&dto("alice", "pw1"), &secrets()), Err(UserError::NotConfirmed));
    let admin_token = endpoint.login(&dto("root", "password"), &secrets()).unwrap();
    let admin = authorize(&admin_token, AccessLevel::Admin, SECRET).unwrap();
    assert_eq!(admin, Principal { id: 1, access_level: AccessLevel::Admin });
    assert_eq!(endpoint.confirm(&admin, alice.id), Ok(()));
    assert_eq!(endpoint.login(&dto("alice", "pw2"), &secrets()), Err(UserError::InvalidPassword));
    let token = endpoint.login(&dto("alice", "pw1"), &secrets()).unwrap();
    assert_eq!(
        authorize(&token, AccessLevel::Registered, SECRET),
        Ok(Principal { id: 2, access_level: AccessLevel::Registered })
    );
    assert_eq!(
        authorize(&token, AccessLevel::Admin, SECRET),
        Err(AuthError::InsufficientPermissions(AccessLevel::Registered, AccessLevel::Admin))
    );
}

#[test]
fn register_refuses_names_ignoring_case() {
    let mut endpoint = UserEndpoint::new(vec![]);
    endpoint.register(&dto("Alice", "pw")).unwrap();
    assert_eq!(endpoint.register(&dto("aLICE", "other")).err(), Some(UserError::NameTaken));
    assert_eq!(endpoint.users.len(), 1);
    let mut full = UserEndpoint::new(vec![user(u32::MAX, "top", AccessLevel::Registered, true)]);
    assert_eq!(full.register(&dto("bob", "pw")).err(), Some(UserError::IdsExhausted));
}

#[test]
fn login_and_confirm_errors() {
    let mut endpoint = UserEndpoint::new(vec![user(3, "carol", AccessLevel::Registered, true)]);
    assert_eq!(endpoint.login(&dto("nobody", "pw"), &secrets()), Err(UserError::UserNotFound));
    let vip = Principal { id: 9, access_level: AccessLevel::Vip };
    assert_eq!(
        endpoint.confirm(&vip, 3),
        Err(UserError::Forbidden(AuthError::InsufficientPermissions(AccessLevel::Vip, AccessLevel::Admin)))
    );
    let admin = Principal { id: 9, access_level: AccessLevel::Admin };
    assert_eq!(endpoint.confirm(&admin, 3), Err(UserError::AlreadyConfirmed));
    assert_eq!(endpoint.confirm(&admin, 4), Err(UserError::UserNotFound));
}

#[test]
fn password_digest_matches() {
    let p = Password::with_salt("pw".to_string(), &[0x01, 0xab]);
    assert_eq!(p.salt, "1ab");
    assert_eq!(p.hash.len(), 64);
    assert!(p.verify("pw".to_string()));
    assert!(!p.verify("pw ".to_string()));
    let fresh = Password::new("secret".to_string());
    assert!(fresh.verify("secret".to_string()));
    assert!(!fresh.verify("Secret".to_string()));
}

#[test]
fn password_hash_is_sha256_hex() {
    // SHA-256 of "abc" with an empty salt.
    let p = Password::with_salt("abc".to_string(), &[]);
    assert_eq!(p.hash, "ba7816bf8f01cfea414140de5dae2223b00361a396177a9cb410ff61f20015ad");
}

#[test]
fn memory_backend_serves_its_records() {
    let config = MemoryConfig { should_fail: false, users: vec![user(4, "dave", AccessLevel::Vip, true)] };
    let manager: DataSourceManager<MemoryDataSource, MemoryConfig, MemoryConfig> =
        DataSourceManager::new(config).unwrap();
    let mut source = manager.get_data_source().unwrap();
    assert_eq!(source.get_version().unwrap(), "Memory");
    assert!(manager.recycle(&mut source).is_ok());
    assert_eq!(source.get_user_by_id(4).unwrap().name, "dave");
    assert_eq!(source.get_user_by_id(5).err(), Some(DataSourceError::NotFound));
    assert_eq!(source.get_user_by_name("dave".to_string()).unwrap().id, 4);
    assert_eq!(source.get_user_by_name("Dave".to_string()).err(), Some(DataSourceError::NotFound));
    let created = source.create_user(&dto("erin", "pw")).unwrap();
    assert_eq!(created.id, 5);
    assert_eq!(source.get_users().unwrap().len(), 2);
    let renamed = User { name: "dave2".to_string(), ..source.get_user_by_id(4).unwrap() };
    assert_eq!(source.update_user(4, &renamed).unwrap().name, "dave2");
    assert_eq!(source.update_user(8, &renamed).err(), Some(DataSourceError::NotFound));
}

#[test]
fn failing_memory_backend() {
    let config = MemoryConfig { should_fail: true, users: vec![] };
    let manager: DataSourceManager<MemoryDataSource, MemoryConfig, MemoryConfig> =
        DataSourceManager::new(config).unwrap();
    let mut source = manager.create().unwrap();
    assert!(matches!(source.get_version(), Err(DataSourceError::ConnectionError(_))));
    assert!(manager.recycle(&mut source).is_err());
    assert!(matches!(source.get_users(), Err(DataSourceError::ConnectionError(_))));
    assert_eq!(DataSourceError::NotFound.status_code(), 404);
    assert_eq!(DataSourceError::NotConfigured.status_code(), 500);
    assert!(DataSourceError::NotFound.is_absence());
    assert!(!DataSourceError::PoolError("x".to_string()).is_absence());
}

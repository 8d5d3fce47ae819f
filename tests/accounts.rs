use user_service::auth::{claims_from_payload, ClaimResult, Claims};
use user_service::catchers::{internal_server_error, not_found, unprocessable_entity};
use user_service::diesel::DieselRepo;
use user_service::entity::{AbstractUser, AccessLevel, User};
use user_service::error::{Error, ErrorCode};
use user_service::repository::Repository;
use user_service::routes::{
    add_user, demotion_allowed, get_claims, login_claims, remove_user, retrieve_users, setup,
    update_user,
};
use user_service::service::{credentials_outcome, Service};
use user_service::structs::{Credentials, EntityStringId, Page};

fn user(id: &str, name: &str, password: &str, level: &str) -> User {
    User {
        id: id.to_string(),
        name: name.to_string(),
        password: password.to_string(),
        access_level: level.to_string(),
    }
}

fn service() -> Service<DieselRepo> {
    Service::new(DieselRepo::new())
}

fn caller(level: AccessLevel) -> ClaimResult {
    ClaimResult::new(Ok(Claims::new("caller".to_string(), level)))
}

fn code<T>(r: Result<T, Error>) -> ErrorCode {
    match r {
        Ok(_) => panic!("expected an error"),
        Err(e) => e.code,
    }
}

#[test]
fn access_level_round_trips() {
    for level in [
        AccessLevel::Read,
        AccessLevel::Write,
        AccessLevel::Internal,
        AccessLevel::Admin,
    ] {
        assert_eq!(AccessLevel::from(level.to_string()), Some(level));
    }
    assert_eq!(AccessLevel::Internal.to_string(), "internal");
    assert_eq!(AccessLevel::from("Admin".to_string()), None);
    assert_eq!(AccessLevel::from("".to_string()), None);
    assert_eq!(AccessLevel::from("root".to_string()), None);
}

#[test]
fn capabilities_form_a_lattice() {
    assert!(AccessLevel::Read.is_readable());
    assert!(!AccessLevel::Read.is_writable());
    assert!(AccessLevel::Write.is_writable());
    assert!(!AccessLevel::Write.is_internal());
    assert!(AccessLevel::Internal.is_writable());
    assert!(AccessLevel::Internal.is_internal());
    assert!(!AccessLevel::Internal.is_admin());
    assert!(AccessLevel::Admin.is_writable());
    assert!(AccessLevel::Admin.is_internal());
    assert!(AccessLevel::Admin.is_admin());
}

#[test]
fn validation_rejects_bad_accounts() {
    assert!(user("u1", "Ann", "pw1", "write").validate().is_ok());
    assert_eq!(code(user("u1", "Ann", "pw1", "writer").validate()), ErrorCode::InvalidData);
    assert_eq!(code(user("", "Ann", "pw1", "write").validate()), ErrorCode::InvalidData);
    assert_eq!(code(user("u1", "", "pw1", "write").validate()), ErrorCode::InvalidData);
    assert_eq!(code(user("u1", "Ann", "", "write").validate()), ErrorCode::InvalidData);
    assert!(user("u1", "Ann", "", "write").soft_validate().is_ok());
    assert_eq!(code(user("u1", "Ann", "", "").soft_validate()), ErrorCode::InvalidData);
    assert_eq!(code(user("", "Ann", "", "read").soft_validate()), ErrorCode::InvalidData);
}

#[test]
fn projection_drops_password() {
    let a = AbstractUser::from(&user("u1", "Ann", "secret", "read"));
    assert_eq!(a.id, "u1");
    assert_eq!(a.name, "Ann");
    assert_eq!(a.access_level, "read");
}

#[test]
fn create_find_login_remove_example() {
    let mut s = service();
    assert!(s.add(user("u1", "Ann", "pw1", "write")).is_ok());
    let found = s.find("u1".to_string()).ok().unwrap();
    assert_ne!(found.password, "pw1");
    assert_eq!(found.password.len(), 60);
    assert!(found.password.starts_with("$2b$"));
    assert_eq!(found.access_level, "write");
    assert_eq!(found.name, "Ann");

    let creds = Credentials { id: "u1".to_string(), password: "pw1".to_string() };
    let claims = login_claims(creds, &s).ok().unwrap();
    assert_eq!(claims.id, "u1");
    assert_eq!(claims.access_level, AccessLevel::Write);

    assert_eq!(
        code(s.login("u1".to_string(), "wrong".to_string())),
        ErrorCode::InvalidCredentials
    );
    assert!(s.remove("u1".to_string()).is_ok());
    assert_eq!(code(s.find("u1".to_string())), ErrorCode::ResourceNotFound);
}

#[test]
fn login_unknown_id_is_not_found() {
    let s = service();
    assert_eq!(code(s.login("ghost".to_string(), "pw".to_string())), ErrorCode::ResourceNotFound);
    let creds = Credentials { id: "ghost".to_string(), password: "pw".to_string() };
    assert_eq!(code(login_claims(creds, &s)), ErrorCode::ResourceNotFound);
}

#[test]
fn duplicate_create_is_refused() {
    let mut s = service();
    assert!(s.add(user("u1", "Ann", "pw1", "read")).is_ok());
    assert_eq!(code(s.add(user("u1", "Bob", "pw2", "read"))), ErrorCode::ResourceAlreadyExists);
    assert_eq!(s.find("u1".to_string()).ok().unwrap().name, "Ann");
}

#[test]
fn remove_and_update_of_missing_account_fail() {
    let mut s = service();
    assert_eq!(code(s.remove("nobody".to_string())), ErrorCode::ResourceNotFound);
    assert_eq!(code(s.update(user("nobody", "N", "", "read"))), ErrorCode::ResourceNotFound);
}

#[test]
fn update_with_empty_password_keeps_hash() {
    let mut s = service();
    assert!(s.add(user("u1", "Ann", "pw1", "write")).is_ok());
    let before = s.find("u1".to_string()).ok().unwrap().password;
    assert!(s.update(user("u1", "Annie", "", "internal")).is_ok());
    let after = s.find("u1".to_string()).ok().unwrap();
    assert_eq!(after.password, before);
    assert_eq!(after.name, "Annie");
    assert_eq!(after.access_level, "internal");
}

#[test]
fn update_with_new_password_replaces_hash() {
    let mut s = service();
    assert!(s.add(user("u1", "Ann", "pw1", "write")).is_ok());
    let before = s.find("u1".to_string()).ok().unwrap().password;
    assert!(s.update(user("u1", "Ann", "pw2", "write")).is_ok());
    let after = s.find("u1".to_string()).ok().unwrap().password;
    assert_ne!(after, before);
    assert_ne!(after, "pw2");
    assert!(bcrypt::verify("pw2", &after).unwrap());
}

#[test]
fn retrieve_pages_public_views() {
    let mut repo = DieselRepo::new();
    for (i, id) in ["a", "b", "c", "d"].iter().enumerate() {
        let name = format!("n{}", i);
        assert!(repo.add(user(id, &name, "$hash", "read")).is_ok());
    }
    let s = Service::new(repo);
    let page = s.retrieve(1, 2).ok().unwrap();
    assert_eq!(page.len(), 2);
    assert_eq!(page[0].id, "b");
    assert_eq!(page[1].id, "c");
    assert_eq!(page[1].name, "n2");
    assert_eq!(s.retrieve(0, 0).ok().unwrap().len(), 0);
    assert_eq!(s.retrieve(0, -3).ok().unwrap().len(), 0);
    assert_eq!(s.retrieve(-5, 2).ok().unwrap()[0].id, "a");
    assert_eq!(s.retrieve(3, 10).ok().unwrap().len(), 1);
    assert_eq!(s.retrieve(9, 10).ok().unwrap().len(), 0);
    assert_eq!(s.retrieve(0, i64::MAX).ok().unwrap().len(), 4);
}

#[test]
fn repository_update_merges_password() {
    let mut repo = DieselRepo::new();
    assert!(repo.add(user("a", "A", "h1", "read")).is_ok());
    assert!(repo.update(user("a", "B", "", "admin")).is_ok());
    let a = repo.find("a".to_string()).ok().unwrap();
    assert_eq!(a.password, "h1");
    assert_eq!(a.name, "B");
    assert!(repo.update(user("a", "B", "h2", "admin")).is_ok());
    assert_eq!(repo.find("a".to_string()).ok().unwrap().password, "h2");
    assert_eq!(code(repo.add(user("a", "C", "h3", "read"))), ErrorCode::ResourceAlreadyExists);
    assert!(repo.remove("a".to_string()).is_ok());
    assert_eq!(code(repo.remove("a".to_string())), ErrorCode::ResourceNotFound);
    assert_eq!(repo.get_paged(0, 10).ok().unwrap().len(), 0);
}

#[test]
fn demotion_guard() {
    let admin = "admin".to_string();
    let write = "write".to_string();
    assert!(!demotion_allowed(AccessLevel::Write, &admin, &write));
    assert!(!demotion_allowed(AccessLevel::Internal, &admin, &write));
    assert!(demotion_allowed(AccessLevel::Admin, &admin, &write));
    assert!(demotion_allowed(AccessLevel::Write, &admin, &admin));
    assert!(demotion_allowed(AccessLevel::Read, &write, &admin));
}

#[test]
fn demoting_an_admin_needs_an_admin_caller() {
    let mut repo = DieselRepo::new();
    assert!(repo.add(user("boss", "Boss", "$hash", "admin")).is_ok());
    let mut s = Service::new(repo);
    let r = update_user(user("boss", "Boss", "", "read"), &mut s, caller(AccessLevel::Internal));
    assert_eq!(code(r), ErrorCode::NotAuthorized);
    assert_eq!(s.find("boss".to_string()).ok().unwrap().access_level, "admin");
    let r = update_user(user("boss", "Boss", "", "read"), &mut s, caller(AccessLevel::Admin));
    assert!(r.is_ok());
    let boss = s.find("boss".to_string()).ok().unwrap();
    assert_eq!(boss.access_level, "read");
    assert_eq!(boss.password, "$hash");
}

#[test]
fn update_route_errors() {
    let mut s = service();
    let none = ClaimResult::new(Err(Error::new(ErrorCode::InvalidData)));
    assert_eq!(code(update_user(user("x", "X", "", "read"), &mut s, none)), ErrorCode::NotAuthorized);
    let r = update_user(user("x", "X", "", "boss"), &mut s, caller(AccessLevel::Admin));
    assert_eq!(code(r), ErrorCode::InvalidData);
    let r = update_user(user("x", "X", "", "read"), &mut s, caller(AccessLevel::Admin));
    assert_eq!(code(r), ErrorCode::ResourceNotFound);
}

#[test]
fn add_route_checks_caller_and_data() {
    let mut s = service();
    let r = add_user(user("u2", "Bob", "pw", "read"), &mut s, caller(AccessLevel::Write));
    assert_eq!(code(r), ErrorCode::NotAuthorized);
    let r = add_user(user("u2", "Bob", "pw", "reader"), &mut s, caller(AccessLevel::Admin));
    assert_eq!(code(r), ErrorCode::InvalidData);
    assert_eq!(code(s.find("u2".to_string())), ErrorCode::ResourceNotFound);
    let r = add_user(user("u2", "Bob", "pw", "read"), &mut s, caller(AccessLevel::Admin));
    assert_eq!(r.ok().unwrap().msg, "added user successfully");
    assert_eq!(s.find("u2".to_string()).ok().unwrap().access_level, "read");
}

#[test]
fn remove_route_checks_caller() {
    let mut repo = DieselRepo::new();
    assert!(repo.add(user("u3", "C", "$hash", "read")).is_ok());
    let mut s = Service::new(repo);
    let id = || EntityStringId { id: "u3".to_string() };
    assert_eq!(code(remove_user(id(), &mut s, caller(AccessLevel::Internal))), ErrorCode::NotAuthorized);
    assert!(s.find("u3".to_string()).is_ok());
    assert!(remove_user(id(), &mut s, caller(AccessLevel::Admin)).is_ok());
    assert_eq!(code(remove_user(id(), &mut s, caller(AccessLevel::Admin))), ErrorCode::ResourceNotFound);
}

#[test]
fn retrieve_route_checks_caller() {
    let mut repo = DieselRepo::new();
    assert!(repo.add(user("u4", "D", "$hash", "write")).is_ok());
    let s = Service::new(repo);
    let page = || Page { skip: 0, limit: 5 };
    assert_eq!(code(retrieve_users(page(), &s, caller(AccessLevel::Read))), ErrorCode::NotAuthorized);
    let data = retrieve_users(page(), &s, caller(AccessLevel::Admin)).ok().unwrap();
    assert_eq!(data.data.len(), 1);
    assert_eq!(data.data[0].access_level, "write");
    assert_eq!(data.msg, "retrieved users successfully");
}

#[test]
fn setup_seeds_admin_once() {
    let mut s = service();
    assert!(setup(&mut s).is_ok());
    let admin = s.find("admin".to_string()).ok().unwrap();
    assert_eq!(admin.access_level, "admin");
    assert_ne!(admin.password, "admin");
    assert_eq!(code(setup(&mut s)), ErrorCode::ResourceAlreadyExists);
}

#[test]
fn login_with_corrupt_level() {
    let mut repo = DieselRepo::new();
    let hash = bcrypt::hash("pw", 4).unwrap();
    assert!(repo.add(user("odd", "Odd", &hash, "superuser")).is_ok());
    let s = Service::new(repo);
    let creds = Credentials { id: "odd".to_string(), password: "pw".to_string() };
    assert_eq!(code(login_claims(creds, &s)), ErrorCode::CorruptResource);
}

#[test]
fn malformed_stored_hash_is_invalid_credentials() {
    let mut repo = DieselRepo::new();
    assert!(repo.add(user("u5", "E", "not-a-hash", "read")).is_ok());
    let s = Service::new(repo);
    assert_eq!(code(s.login("u5".to_string(), "not-a-hash".to_string())), ErrorCode::InvalidCredentials);
}

#[test]
fn password_check_outcomes() {
    assert!(credentials_outcome(Ok(true)).is_ok());
    assert_eq!(code(credentials_outcome(Ok(false))), ErrorCode::InvalidCredentials);
    let err = credentials_outcome(Err(bcrypt::BcryptError::CostNotAllowed(1)));
    assert_eq!(code(err), ErrorCode::InvalidCredentials);
}

#[test]
fn guard_results() {
    let ok = ClaimResult::new(Ok(Claims::new("u1".to_string(), AccessLevel::Write)));
    let c = get_claims(ok).ok().unwrap();
    assert_eq!(c.id, "u1");
    assert_eq!(c.access_level, AccessLevel::Write);
    let missing = ClaimResult::new(Err(Error::new(ErrorCode::Unknown)));
    assert_eq!(code(missing.inner()), ErrorCode::NotAuthorized);
}

#[test]
fn catcher_codes() {
    assert_eq!(unprocessable_entity().code, ErrorCode::InvalidData);
    assert_eq!(not_found().code, ErrorCode::ResourceNotFound);
    assert_eq!(internal_server_error().code, ErrorCode::Unknown);
    assert_eq!(Error::custom(ErrorCode::DatabaseError, "down".to_string()).msg, "down");
}

#[test]
fn add_hashed_stores_the_given_hash() {
    let mut s = service();
    assert!(s.add_hashed(user("u6", "F", "pw", "read"), Ok("$2b$given".to_string())).is_ok());
    let stored = s.find("u6".to_string()).ok().unwrap();
    assert_eq!(stored.password, "$2b$given");
    assert_eq!(stored.name, "F");
    let failed = s.add_hashed(user("u7", "G", "pw", "read"), Err(bcrypt::BcryptError::CostNotAllowed(1)));
    assert_eq!(code(failed), ErrorCode::Unknown);
    assert_eq!(code(s.find("u7".to_string())), ErrorCode::ResourceNotFound);
}

#[test]
fn update_hashed_stores_the_given_hash() {
    let mut repo = DieselRepo::new();
    assert!(repo.add(user("u8", "H", "old", "read")).is_ok());
    let mut s = Service::new(repo);
    let failed = s.update_hashed(user("u8", "H2", "pw", "write"), Err(bcrypt::BcryptError::CostNotAllowed(1)));
    assert_eq!(code(failed), ErrorCode::Unknown);
    let kept = s.find("u8".to_string()).ok().unwrap();
    assert_eq!(kept.password, "old");
    assert_eq!(kept.name, "H");
    assert!(s.update_hashed(user("u8", "H2", "pw", "write"), Ok("new".to_string())).is_ok());
    let changed = s.find("u8".to_string()).ok().unwrap();
    assert_eq!(changed.password, "new");
    assert_eq!(changed.name, "H2");
    assert_eq!(changed.access_level, "write");
}

#[test]
fn token_payload_levels() {
    let c = claims_from_payload("u1".to_string(), "internal".to_string()).ok().unwrap();
    assert_eq!(c.id, "u1");
    assert_eq!(c.access_level, AccessLevel::Internal);
    let bad = claims_from_payload("u1".to_string(), "root".to_string());
    assert_eq!(code(bad), ErrorCode::NotAuthorized);
}

#[test]
fn guard_without_token_is_not_authorized() {
    let none = ClaimResult::from_token(None);
    assert_eq!(code(get_claims(none)), ErrorCode::NotAuthorized);
    let bad = ClaimResult::from_token(Some(Err(Error::new(ErrorCode::InvalidData))));
    assert_eq!(code(bad.inner()), ErrorCode::NotAuthorized);
    let good = ClaimResult::from_token(Some(Ok(Claims::new("u9".to_string(), AccessLevel::Read))));
    assert_eq!(get_claims(good).ok().unwrap().id, "u9");
}

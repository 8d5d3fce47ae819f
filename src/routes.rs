use vstd::prelude::*;

use crate::auth::{caller_level, ClaimResult, Claims};
use crate::entity::{
    is_admin_name, level_name, parse_level, project, soft_valid_account, valid_account,
    AbstractUser, AccessLevel, User, UserView,
};
use crate::error::{Error, ErrorCode, Success};
use crate::repository::{page, Repository};
use crate::service::{abstract_views, created, login_accepted, updated_as, Service};
use crate::structs::{Credentials, EntityStringId, Page, PageData};

verus! {

/// The seed account that setup creates: every field reads `admin`.
pub open spec fn seed_admin() -> UserView {
    UserView {
        id: level_name(AccessLevel::Admin),
        name: level_name(AccessLevel::Admin),
        password: level_name(AccessLevel::Admin),
        access_level: level_name(AccessLevel::Admin),
    }
}

/// Whether a caller at `caller` may set an account stored at level `stored` to level `target`:
/// only an administrator may demote an administrator.
pub open spec fn demotion_permitted(caller: AccessLevel, stored: Seq<char>, target: Seq<char>) -> bool {
    !(is_admin_name(stored) && !is_admin_name(target)) || caller == AccessLevel::Admin
}

/// An administrator account may be moved to a lower level only by an administrator.
pub proof fn lemma_demotion_needs_admin(caller: AccessLevel, stored: Seq<char>, target: Seq<char>)
    requires
        is_admin_name(stored),
        !is_admin_name(target),
    ensures
        demotion_permitted(caller, stored, target) <==> caller == AccessLevel::Admin,
{
}

fn admin_string() -> (s: String)
    ensures
        s@ == level_name(AccessLevel::Admin),
{
    AccessLevel::Admin.to_string()
}

fn is_admin_string(s: &String) -> (r: bool)
    ensures
        r == is_admin_name(s@),
{
    match AccessLevel::from(s.clone()) {
        Some(l) => l.is_admin(),
        None => false,
    }
}

/// The demotion guard for an update.
pub fn demotion_allowed(caller: AccessLevel, stored_level: &String, target_level: &String) -> (r:
    bool)
    ensures
        r == demotion_permitted(caller, stored_level@, target_level@),
{
    !(is_admin_string(stored_level) && !is_admin_string(target_level)) || caller.is_admin()
}

/// The caller's claims, if the caller is an administrator; `NotAuthorized` otherwise.
fn require_admin(claims: ClaimResult) -> (r: Result<Claims, Error>)
    ensures
        r is Ok <==> caller_level(claims) == Some(AccessLevel::Admin),
        r matches Ok(c) ==> c.access_level == AccessLevel::Admin,
        r matches Err(e) ==> e.code == ErrorCode::NotAuthorized,
{
    match claims.inner() {
        Err(e) => Err(e),
        Ok(c) => {
            if c.access_level.is_admin() {
                Ok(c)
            } else {
                Err(Error::new(ErrorCode::NotAuthorized))
            }
        },
    }
}

/// Creates the seed administrator.
pub fn setup<R: Repository>(service: &mut Service<R>) -> (r: Result<Success, Error>)
    requires
        old(service).inv(),
    ensures
        final(service).inv(),
        final(service).reliable() == old(service).reliable(),
        r is Ok ==> created(old(service).accounts(), final(service).accounts(), seed_admin()),
        r is Err ==> final(service).rows() == old(service).rows(),
        r matches Err(e) ==> (e.code == ErrorCode::ResourceAlreadyExists && old(
            service,
        ).accounts().contains_key(seed_admin().id)) || (e.code == ErrorCode::Unknown && !old(
            service,
        ).accounts().contains_key(seed_admin().id)) || (e.code == ErrorCode::DatabaseError
            && !old(service).reliable()),
{
    let user = User {
        id: admin_string(),
        name: admin_string(),
        password: admin_string(),
        access_level: admin_string(),
    };
    match service.add(user) {
        Err(e) => Err(e),
        Ok(()) => Ok(Success::new("added admin successfully")),
    }
}

/// Adds an account on behalf of an administrator.
pub fn add_user<R: Repository>(user: User, service: &mut Service<R>, claims: ClaimResult) -> (r:
    Result<Success, Error>)
    requires
        old(service).inv(),
    ensures
        final(service).inv(),
        final(service).reliable() == old(service).reliable(),
        r is Ok ==> caller_level(claims) == Some(AccessLevel::Admin) && valid_account(user@)
            && created(old(service).accounts(), final(service).accounts(), user@),
        r is Err ==> final(service).rows() == old(service).rows(),
        r matches Err(e) ==> (e.code == ErrorCode::NotAuthorized && caller_level(claims) != Some(AccessLevel::Admin))
            || (caller_level(claims) == Some(AccessLevel::Admin) && ((e.code == ErrorCode::InvalidData
            && !valid_account(user@)) || (valid_account(user@) && ((e.code
            == ErrorCode::ResourceAlreadyExists && old(service).accounts().contains_key(user@.id))
            || (e.code == ErrorCode::Unknown && !old(service).accounts().contains_key(user@.id))
            || (e.code == ErrorCode::DatabaseError && !old(service).reliable()))))),
{
    if let Err(e) = require_admin(claims) {
        return Err(e);
    }
    if let Err(e) = user.validate() {
        return Err(e);
    }
    match service.add(user) {
        Err(e) => Err(e),
        Ok(()) => Ok(Success::new("added user successfully")),
    }
}

/// Removes an account on behalf of an administrator.
pub fn remove_user<R: Repository>(
    user_id: EntityStringId,
    service: &mut Service<R>,
    claims: ClaimResult,
) -> (r: Result<Success, Error>)
    requires
        old(service).inv(),
    ensures
        final(service).inv(),
        final(service).reliable() == old(service).reliable(),
        r is Ok ==> caller_level(claims) == Some(AccessLevel::Admin) && old(service).accounts().contains_key(user_id.id@)
            && final(service).accounts() == old(service).accounts().remove(user_id.id@),
        r is Err ==> final(service).rows() == old(service).rows(),
        r matches Err(e) ==> (e.code == ErrorCode::NotAuthorized && caller_level(claims) != Some(AccessLevel::Admin))
            || (caller_level(claims) == Some(AccessLevel::Admin) && ((e.code == ErrorCode::ResourceNotFound
            && !old(service).accounts().contains_key(user_id.id@)) || (e.code
            == ErrorCode::DatabaseError && !old(service).reliable()))),
        old(service).reliable() && caller_level(claims) == Some(AccessLevel::Admin) && old(
            service,
        ).accounts().contains_key(user_id.id@) ==> r is Ok,
{
    if let Err(e) = require_admin(claims) {
        return Err(e);
    }
    match service.remove(user_id.id) {
        Err(e) => Err(e),
        Ok(()) => Ok(Success::new("removed user successfully")),
    }
}

/// Updates an account on behalf of an administrator, under the demotion guard.
pub fn update_user<R: Repository>(user: User, service: &mut Service<R>, claims: ClaimResult) -> (r:
    Result<Success, Error>)
    requires
        old(service).inv(),
    ensures
        final(service).inv(),
        final(service).reliable() == old(service).reliable(),
        r is Ok ==> caller_level(claims) == Some(AccessLevel::Admin) && soft_valid_account(user@)
            && old(service).accounts().contains_key(user@.id) && final(service).accounts() == old(
            service,
        ).accounts().insert(user@.id, final(service).accounts()[user@.id]) && updated_as(
            old(service).accounts()[user@.id],
            user@,
            final(service).accounts()[user@.id],
        ),
        r is Err ==> final(service).rows() == old(service).rows(),
        r matches Err(e) ==> (e.code == ErrorCode::NotAuthorized && caller_level(claims) != Some(AccessLevel::Admin))
            || (caller_level(claims) == Some(AccessLevel::Admin) && ((e.code == ErrorCode::InvalidData
            && !soft_valid_account(user@)) || (soft_valid_account(user@) && ((e.code
            == ErrorCode::ResourceNotFound && !old(service).accounts().contains_key(user@.id))
            || (e.code == ErrorCode::Unknown && old(service).accounts().contains_key(user@.id)
            && user@.password.len() > 0) || (e.code == ErrorCode::DatabaseError && !old(
            service,
        ).reliable()))))),
        old(service).reliable() && caller_level(claims) == Some(AccessLevel::Admin) && soft_valid_account(user@)
            && old(service).accounts().contains_key(user@.id) && user@.password.len() == 0 ==> r is Ok,
{
    let caller = match require_admin(claims) {
        Err(e) => {
            return Err(e);
        },
        Ok(c) => c,
    };
    if let Err(e) = user.soft_validate() {
        return Err(e);
    }
    let stored = match service.find(user.id.clone()) {
        Err(e) => {
            return Err(e);
        },
        Ok(s) => s,
    };
    if !demotion_allowed(caller.access_level, &stored.access_level, &user.access_level) {
        return Err(Error::new(ErrorCode::NotAuthorized));
    }
    match service.update(user) {
        Err(e) => Err(e),
        Ok(()) => Ok(Success::new("updated user successfully")),
    }
}

/// A page of public account views, on behalf of an administrator.
pub fn retrieve_users<R: Repository>(page_req: Page, service: &Service<R>, claims: ClaimResult) -> (r:
    Result<PageData<AbstractUser>, Error>)
    requires
        service.inv(),
    ensures
        r matches Ok(p) ==> caller_level(claims) == Some(AccessLevel::Admin) && abstract_views(p.data@) == page(
            service.rows(),
            page_req.skip as int,
            page_req.limit as int,
        ).map_values(|u: UserView| project(u)),
        r matches Err(e) ==> (e.code == ErrorCode::NotAuthorized && caller_level(claims) != Some(AccessLevel::Admin))
            || (caller_level(claims) == Some(AccessLevel::Admin) && e.code == ErrorCode::DatabaseError
            && !service.reliable()),
        service.reliable() && caller_level(claims) == Some(AccessLevel::Admin) ==> r is Ok,
{
    if let Err(e) = require_admin(claims) {
        return Err(e);
    }
    match service.retrieve(page_req.skip, page_req.limit) {
        Err(e) => Err(e),
        Ok(data) => Ok(PageData { data, msg: String::from_str("retrieved users successfully") }),
    }
}

/// The claims to sign into a token for a login, once the password has been checked.
pub fn login_claims<R: Repository>(creds: Credentials, service: &Service<R>) -> (r: Result<
    Claims,
    Error,
>)
    requires
        service.inv(),
    ensures
        r matches Ok(c) ==> login_accepted(service.accounts(), creds.id@, creds.password@)
            && c.id@ == creds.id@ && Some(c.access_level) == parse_level(
            service.accounts()[creds.id@].access_level,
        ),
        r matches Err(e) ==> (e.code == ErrorCode::ResourceNotFound && !service.accounts().contains_key(
            creds.id@,
        )) || (e.code == ErrorCode::InvalidCredentials && service.accounts().contains_key(creds.id@)
            && !login_accepted(service.accounts(), creds.id@, creds.password@)) || (e.code
            == ErrorCode::CorruptResource && login_accepted(
            service.accounts(),
            creds.id@,
            creds.password@,
        ) && parse_level(service.accounts()[creds.id@].access_level) is None) || (e.code
            == ErrorCode::DatabaseError && !service.reliable()),
        service.reliable() && login_accepted(service.accounts(), creds.id@, creds.password@)
            && parse_level(service.accounts()[creds.id@].access_level) is Some ==> r is Ok,
{
    if let Err(e) = service.login(creds.id.clone(), creds.password) {
        return Err(e);
    }
    let user = match service.find(creds.id) {
        Err(e) => {
            return Err(e);
        },
        Ok(u) => u,
    };
    match AccessLevel::from(user.access_level) {
        None => Err(
            Error::custom(ErrorCode::CorruptResource, String::from_str("undefined access level found")),
        ),
        Some(level) => Ok(Claims::new(user.id, level)),
    }
}

/// The caller's own claims.
pub fn get_claims(claims: ClaimResult) -> (r: Result<Claims, Error>)
    ensures
        r is Ok <==> claims.outcome is Ok,
        r matches Ok(c) ==> claims.outcome == Ok::<Claims, Error>(c),
        r matches Err(e) ==> e.code == ErrorCode::NotAuthorized,
{
    claims.inner()
}

} // verus!

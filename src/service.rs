use vstd::prelude::*;

use crate::entity::{project, user_views, AbstractUser, AbstractUserView, User, UserView};
use crate::error::{Error, ErrorCode};
use crate::repository::{ids_unique, lemma_table_at, lemma_table_keys, merged, page, table, Repository};

verus! {

#[verifier::external_type_specification]
#[verifier::external_body]
pub struct ExBcryptError(bcrypt::BcryptError);

/// What `bcrypt::verify` reports for a password and a stored hash: `Some(matches)`, or `None`
/// where it fails (a malformed hash).
pub uninterp spec fn bcrypt_verdict(password: Seq<char>, hash: Seq<char>) -> Option<bool>;

/// The shape of every string that `bcrypt::hash` returns: sixty characters after a `$2b$` prefix.
pub open spec fn bcrypt_shaped(h: Seq<char>) -> bool {
    h.len() == 60 && h.subrange(0, 4) == seq!['$', '2', 'b', '$']
}

/// Relies on bcrypt::hash with its default cost: the salt is drawn at random, the result is the
/// sixty-character `$2b$` encoding of cost, salt and digest, and `bcrypt::verify` recomputes the
/// digest from that salt and cost, so it accepts the password that was hashed.
#[verifier::external_body]
fn hash_password(password: &String) -> (r: Result<String, bcrypt::BcryptError>)
    ensures
        r matches Ok(h) ==> bcrypt_shaped(h@) && bcrypt_verdict(password@, h@) == Some(true),
{
    bcrypt::hash(password.as_str(), bcrypt::DEFAULT_COST)
}

/// Relies on bcrypt::verify: whether the password hashes to the digest under the hash's salt.
#[verifier::external_body]
fn verify_password(password: &String, hash: &String) -> (r: Result<bool, bcrypt::BcryptError>)
    ensures
        r matches Ok(b) ==> bcrypt_verdict(password@, hash@) == Some(b),
        r is Err ==> bcrypt_verdict(password@, hash@) is None,
{
    bcrypt::verify(password.as_str(), hash.as_str())
}

/// A stored record that holds a new account: its fields, with a bcrypt hash of its password.
pub open spec fn stored_as(stored: UserView, incoming: UserView) -> bool {
    &&& stored.id == incoming.id
    &&& stored.name == incoming.name
    &&& stored.access_level == incoming.access_level
    &&& bcrypt_shaped(stored.password)
    &&& bcrypt_verdict(incoming.password, stored.password) == Some(true)
}

/// A stored record after an update: the incoming fields; the old hash where the incoming
/// password is empty, else a bcrypt hash of the incoming password.
pub open spec fn updated_as(before: UserView, incoming: UserView, after: UserView) -> bool {
    &&& after.id == incoming.id
    &&& after.name == incoming.name
    &&& after.access_level == incoming.access_level
    &&& incoming.password.len() == 0 ==> after.password == before.password
    &&& incoming.password.len() > 0 ==> bcrypt_shaped(after.password) && bcrypt_verdict(
        incoming.password,
        after.password,
    ) == Some(true)
}

/// `after` is `before` with one new account, stored from `incoming`.
pub open spec fn created(
    before: Map<Seq<char>, UserView>,
    after: Map<Seq<char>, UserView>,
    incoming: UserView,
) -> bool {
    &&& !before.contains_key(incoming.id)
    &&& after.contains_key(incoming.id)
    &&& after == before.insert(incoming.id, after[incoming.id])
    &&& stored_as(after[incoming.id], incoming)
}

/// Whether a login with `password` is accepted against the accounts.
pub open spec fn login_accepted(
    accounts: Map<Seq<char>, UserView>,
    id: Seq<char>,
    password: Seq<char>,
) -> bool {
    accounts.contains_key(id) && bcrypt_verdict(password, accounts[id].password) == Some(true)
}

pub open spec fn abstract_views(s: Seq<AbstractUser>) -> Seq<AbstractUserView> {
    s.map_values(|a: AbstractUser| a@)
}

/// A freshly created account never stores its plaintext password, unless that plaintext is
/// itself a string of bcrypt's output shape.
pub proof fn lemma_created_hides_plaintext(
    before: Map<Seq<char>, UserView>,
    after: Map<Seq<char>, UserView>,
    incoming: UserView,
)
    requires
        created(before, after, incoming),
        !bcrypt_shaped(incoming.password),
    ensures
        after[incoming.id].password != incoming.password,
{
}

/// After a create, a login with the same id and password is accepted.
pub proof fn lemma_login_after_create(
    before: Map<Seq<char>, UserView>,
    after: Map<Seq<char>, UserView>,
    incoming: UserView,
)
    requires
        created(before, after, incoming),
    ensures
        login_accepted(after, incoming.id, incoming.password),
{
}

/// A login is accepted exactly when the id is stored and bcrypt matches the password against
/// the stored hash; an unknown id is never accepted, whatever the password.
pub proof fn lemma_login_needs_account(
    accounts: Map<Seq<char>, UserView>,
    id: Seq<char>,
    password: Seq<char>,
)
    ensures
        !accounts.contains_key(id) ==> !login_accepted(accounts, id, password),
        login_accepted(accounts, id, password) <==> accounts.contains_key(id) && bcrypt_verdict(
            password,
            accounts[id].password,
        ) == Some(true),
{
}

/// An update with an empty password keeps the stored hash; one with a password stores a bcrypt
/// hash that accepts the new password, and never that password in plain text unless it is itself
/// of bcrypt's output shape.
pub proof fn lemma_update_password_rule(before: UserView, incoming: UserView, after: UserView)
    requires
        updated_as(before, incoming, after),
    ensures
        incoming.password.len() == 0 ==> after.password == before.password,
        incoming.password.len() > 0 ==> bcrypt_verdict(incoming.password, after.password) == Some(
            true,
        ),
        incoming.password.len() > 0 && !bcrypt_shaped(incoming.password) ==> after.password
            != incoming.password,
{
}

/// Every entry of a page is the public projection of the stored account with its id, so a
/// page shows no password.
pub proof fn lemma_page_shows_projections(rows: Seq<UserView>, skip: int, limit: int, k: int)
    requires
        ids_unique(rows),
        0 <= k < page(rows, skip, limit).len(),
    ensures
        table(rows).contains_key(page(rows, skip, limit)[k].id),
        page(rows, skip, limit).map_values(|u: UserView| project(u))[k] == project(
            table(rows)[page(rows, skip, limit)[k].id],
        ),
{
    let start = crate::repository::page_start(rows.len() as int, skip);
    assert(page(rows, skip, limit)[k] == rows[start + k]);
    lemma_table_at(rows, start + k);
}

/// The outcome of a password check, from what `bcrypt::verify` returned.
pub fn credentials_outcome(verdict: Result<bool, bcrypt::BcryptError>) -> (r: Result<(), Error>)
    ensures
        r is Ok <==> verdict matches Ok(true),
        r matches Err(e) ==> e.code == ErrorCode::InvalidCredentials,
{
    match verdict {
        Err(_) => Err(
            Error::custom(
                ErrorCode::InvalidCredentials,
                String::from_str("bcrypt verification failed"),
            ),
        ),
        Ok(true) => Ok(()),
        Ok(false) => Err(
            Error::custom(ErrorCode::InvalidCredentials, String::from_str("password mismatch")),
        ),
    }
}

/// The business rules over a repository: hashing, existence checks.
pub struct Service<R: Repository> {
    repo: R,
}

impl<R: Repository> Service<R> {
    /// The stored accounts, in storage order.
    pub closed spec fn rows(&self) -> Seq<UserView> {
        self.repo.rows()
    }

    /// Whether the underlying store never fails.
    pub closed spec fn reliable(&self) -> bool {
        self.repo.reliable()
    }

    /// The stored accounts by id.
    pub open spec fn accounts(&self) -> Map<Seq<char>, UserView> {
        table(self.rows())
    }

    pub open spec fn inv(&self) -> bool {
        ids_unique(self.rows())
    }

    pub fn new(repo: R) -> (s: Self)
        ensures
            s.rows() == repo.rows(),
            s.reliable() == repo.reliable(),
    {
        Service { repo }
    }

    /// Stores a new account under the password hash that hashing produced.
    pub fn add_hashed(&mut self, user: User, hash: Result<String, bcrypt::BcryptError>) -> (r:
        Result<(), Error>)
        requires
            old(self).inv(),
            !old(self).accounts().contains_key(user@.id),
        ensures
            final(self).inv(),
            final(self).reliable() == old(self).reliable(),
            hash is Err ==> (r matches Err(e) && e.code == ErrorCode::Unknown),
            r is Err ==> final(self).rows() == old(self).rows(),
            hash matches Ok(h) ==> (r is Ok ==> final(self).accounts() == old(
                self,
            ).accounts().insert(
                user@.id,
                (UserView {
                    id: user@.id,
                    name: user@.name,
                    password: h@,
                    access_level: user@.access_level,
                }),
            )),
            hash is Ok ==> (r matches Err(e) ==> e.code == ErrorCode::DatabaseError && !old(
                self,
            ).reliable()),
            hash is Ok && old(self).reliable() ==> r is Ok,
    {
        match hash {
            Err(_) => Err(
                Error::custom(ErrorCode::Unknown, String::from_str("bcrypt hash generation failed")),
            ),
            Ok(h) => {
                let stored = User {
                    id: user.id,
                    name: user.name,
                    password: h,
                    access_level: user.access_level,
                };
                self.repo.add(stored)
            },
        }
    }

    pub fn add(&mut self, user: User) -> (r: Result<(), Error>)
        requires
            old(self).inv(),
        ensures
            final(self).inv(),
            final(self).reliable() == old(self).reliable(),
            r is Ok ==> created(old(self).accounts(), final(self).accounts(), user@),
            r is Err ==> final(self).rows() == old(self).rows(),
            r matches Err(e) ==> (e.code == ErrorCode::ResourceAlreadyExists && old(
                self,
            ).accounts().contains_key(user@.id)) || (e.code == ErrorCode::Unknown && !old(
                self,
            ).accounts().contains_key(user@.id)) || (e.code == ErrorCode::DatabaseError && !old(
                self,
            ).reliable()),
    {
        match self.repo.find(user.id.clone()) {
            Ok(_) => {
                return Err(Error::new(ErrorCode::ResourceAlreadyExists));
            },
            Err(e) => {
                if e.code == ErrorCode::DatabaseError {
                    return Err(e);
                }
            },
        }
        let hash = hash_password(&user.password);
        let ghost incoming = user@;
        let ghost hashed = hash;
        let r = self.add_hashed(user, hash);
        proof {
            if r is Ok {
                let h = hashed->Ok_0;
                assert(final(self).accounts()[incoming.id].password == h@);
            }
        }
        r
    }

    pub fn remove(&mut self, user_id: String) -> (r: Result<(), Error>)
        requires
            old(self).inv(),
        ensures
            final(self).inv(),
            final(self).reliable() == old(self).reliable(),
            r is Ok ==> old(self).accounts().contains_key(user_id@) && final(self).accounts() == old(
                self,
            ).accounts().remove(user_id@),
            r is Err ==> final(self).rows() == old(self).rows(),
            r matches Err(e) ==> (e.code == ErrorCode::ResourceNotFound && !old(
                self,
            ).accounts().contains_key(user_id@)) || (e.code == ErrorCode::DatabaseError && !old(
                self,
            ).reliable()),
            old(self).reliable() && old(self).accounts().contains_key(user_id@) ==> r is Ok,
    {
        self.repo.remove(user_id)
    }

    /// Updates an existing account, storing the password hash that hashing produced.
    pub fn update_hashed(&mut self, user: User, hash: Result<String, bcrypt::BcryptError>) -> (r:
        Result<(), Error>)
        requires
            old(self).inv(),
            old(self).accounts().contains_key(user@.id),
        ensures
            final(self).inv(),
            final(self).reliable() == old(self).reliable(),
            hash is Err ==> (r matches Err(e) && e.code == ErrorCode::Unknown),
            r is Err ==> final(self).rows() == old(self).rows(),
            hash matches Ok(h) ==> (r is Ok ==> final(self).accounts() == old(
                self,
            ).accounts().insert(
                user@.id,
                merged(
                    old(self).accounts()[user@.id],
                    (UserView {
                        id: user@.id,
                        name: user@.name,
                        password: h@,
                        access_level: user@.access_level,
                    }),
                ),
            )),
            hash is Ok ==> (r matches Err(e) ==> e.code == ErrorCode::DatabaseError && !old(
                self,
            ).reliable()),
            hash is Ok && old(self).reliable() ==> r is Ok,
    {
        match hash {
            Err(_) => Err(
                Error::custom(ErrorCode::Unknown, String::from_str("bcrypt hash generation failed")),
            ),
            Ok(h) => {
                let stored = User {
                    id: user.id,
                    name: user.name,
                    password: h,
                    access_level: user.access_level,
                };
                self.repo.update(stored)
            },
        }
    }

    pub fn update(&mut self, user: User) -> (r: Result<(), Error>)
        requires
            old(self).inv(),
        ensures
            final(self).inv(),
            final(self).reliable() == old(self).reliable(),
            r is Ok ==> old(self).accounts().contains_key(user@.id) && final(self).accounts()
                == old(self).accounts().insert(user@.id, final(self).accounts()[user@.id])
                && updated_as(
                old(self).accounts()[user@.id],
                user@,
                final(self).accounts()[user@.id],
            ),
            r is Err ==> final(self).rows() == old(self).rows(),
            r matches Err(e) ==> (e.code == ErrorCode::ResourceNotFound && !old(
                self,
            ).accounts().contains_key(user@.id)) || (e.code == ErrorCode::Unknown && old(
                self,
            ).accounts().contains_key(user@.id) && user@.password.len() > 0) || (e.code
                == ErrorCode::DatabaseError && !old(self).reliable()),
            old(self).reliable() && old(self).accounts().contains_key(user@.id)
                && user@.password.len() == 0 ==> r is Ok,
    {
        match self.repo.find(user.id.clone()) {
            Ok(_) => {},
            Err(e) => {
                if e.code == ErrorCode::DatabaseError {
                    return Err(e);
                }
                return Err(Error::new(ErrorCode::ResourceNotFound));
            },
        }
        proof { lemma_table_keys(self.rows(), user@.id); }
        if user.password.as_str().is_empty() {
            let r = self.repo.update(user);
            r
        } else {
            let hash = hash_password(&user.password);
            self.update_hashed(user, hash)
        }
    }

    pub fn login(&self, user_id: String, passwd: String) -> (r: Result<(), Error>)
        requires
            self.inv(),
        ensures
            r is Ok ==> login_accepted(self.accounts(), user_id@, passwd@),
            r matches Err(e) ==> (e.code == ErrorCode::ResourceNotFound && !self.accounts().contains_key(user_id@))
                || (e.code == ErrorCode::InvalidCredentials && self.accounts().contains_key(user_id@)
                && !login_accepted(self.accounts(), user_id@, passwd@)) || (e.code
                == ErrorCode::DatabaseError && !self.reliable()),
            self.reliable() && login_accepted(self.accounts(), user_id@, passwd@) ==> r is Ok,
    {
        let user = match self.repo.find(user_id) {
            Ok(u) => u,
            Err(e) => {
                return Err(e);
            },
        };
        let verdict = verify_password(&passwd, &user.password);
        credentials_outcome(verdict)
    }

    pub fn retrieve(&self, skip: i64, limit: i64) -> (r: Result<Vec<AbstractUser>, Error>)
        requires
            self.inv(),
        ensures
            r matches Ok(v) ==> abstract_views(v@) == page(
                self.rows(),
                skip as int,
                limit as int,
            ).map_values(|u: UserView| project(u)),
            r matches Err(e) ==> e.code == ErrorCode::DatabaseError && !self.reliable(),
    {
        let users = match self.repo.get_paged(skip, limit) {
            Ok(v) => v,
            Err(e) => {
                return Err(e);
            },
        };
        let ghost expected = page(self.rows(), skip as int, limit as int);
        let mut abstract_users: Vec<AbstractUser> = Vec::new();
        let mut i: usize = 0;
        while i < users.len()
            invariant
                i <= users@.len(),
                user_views(users@) == expected,
                abstract_views(abstract_users@) =~= expected.subrange(0, i as int).map_values(
                    |u: UserView| project(u),
                ),
            decreases users@.len() - i,
        {
            let ghost before = abstract_users@;
            let a = AbstractUser::from(&users[i]);
            assert(users@[i as int]@ == expected[i as int]);
            abstract_users.push(a);
            assert(abstract_users@ == before.push(a));
            assert(abstract_views(abstract_users@) =~= abstract_views(before).push(a@));
            i = i + 1;
        }
        assert(expected.subrange(0, i as int) =~= expected);
        Ok(abstract_users)
    }

    pub fn find(&self, user_id: String) -> (r: Result<User, Error>)
        requires
            self.inv(),
        ensures
            r matches Ok(u) ==> self.accounts().contains_key(user_id@) && u@ == self.accounts()[user_id@]
                && u@.id == user_id@,
            r matches Err(e) ==> (e.code == ErrorCode::ResourceNotFound && !self.accounts().contains_key(user_id@))
                || (e.code == ErrorCode::DatabaseError && !self.reliable()),
            self.reliable() && self.accounts().contains_key(user_id@) ==> r is Ok,
    {
        let r = self.repo.find(user_id);
        proof {
            if r is Ok {
                lemma_table_keys(self.rows(), user_id@);
            }
        }
        r
    }
}

} // verus!

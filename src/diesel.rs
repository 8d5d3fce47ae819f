use vstd::prelude::*;

use crate::entity::{user_views, User, UserView};
use crate::error::{Error, ErrorCode};
use crate::repository::{
    ids_unique, lemma_table_at, lemma_table_contains, lemma_table_push, lemma_table_remove,
    lemma_table_update, merged, page, page_end, page_start, table, Repository,
};

verus! {

/// The table adapter: the accounts table as a sequence of rows, with check-then-act writes.
pub struct DieselRepo {
    users: Vec<User>,
}

/// A field-by-field copy of an account.
fn copy_user(u: &User) -> (r: User)
    ensures
        r@ == u@,
{
    User {
        id: u.id.clone(),
        name: u.name.clone(),
        password: u.password.clone(),
        access_level: u.access_level.clone(),
    }
}

impl DieselRepo {
    pub fn new() -> (r: DieselRepo)
        ensures
            r.rows() == Seq::<UserView>::empty(),
            ids_unique(r.rows()),
            r.reliable(),
    {
        let r = DieselRepo { users: Vec::new() };
        assert(r.rows() =~= Seq::<UserView>::empty());
        r
    }

    /// The index of the row that carries `user_id`, if any.
    fn position(&self, user_id: &String) -> (r: Option<usize>)
        ensures
            r matches Some(i) ==> i < self.rows().len() && self.rows()[i as int].id == user_id@,
            r is None ==> forall|i: int| 0 <= i < self.rows().len() ==> self.rows()[i].id != user_id@,
    {
        let mut i: usize = 0;
        while i < self.users.len()
            invariant
                0 <= i <= self.users@.len(),
                self.rows().len() == self.users@.len(),
                forall|j: int| 0 <= j < i ==> self.rows()[j].id != user_id@,
            decreases self.users@.len() - i,
        {
            if self.users[i].id == *user_id {
                return Some(i);
            }
            i = i + 1;
        }
        None
    }
}

impl Repository for DieselRepo {
    closed spec fn rows(&self) -> Seq<UserView> {
        user_views(self.users@)
    }

    /// Rows held in memory: no call fails for want of the store.
    open spec fn reliable(&self) -> bool {
        true
    }

    fn add(&mut self, user: User) -> (r: Result<(), Error>) {
        let found = self.position(&user.id);
        proof { lemma_table_contains(old(self).rows(), user@.id); }
        if found.is_some() {
            return Err(Error::new(ErrorCode::ResourceAlreadyExists));
        }
        proof { lemma_table_push(old(self).rows(), user@); }
        self.users.push(user);
        assert(self.rows() =~= old(self).rows().push(user@));
        Ok(())
    }

    fn remove(&mut self, user_id: String) -> (r: Result<(), Error>) {
        let found = self.position(&user_id);
        proof { lemma_table_contains(old(self).rows(), user_id@); }
        match found {
            None => Err(Error::new(ErrorCode::ResourceNotFound)),
            Some(i) => {
                proof { lemma_table_remove(old(self).rows(), i as int); }
                self.users.remove(i);
                assert(self.rows() =~= old(self).rows().remove(i as int));
                Ok(())
            },
        }
    }

    fn update(&mut self, user: User) -> (r: Result<(), Error>) {
        let found = self.position(&user.id);
        proof { lemma_table_contains(old(self).rows(), user@.id); }
        match found {
            None => Err(Error::new(ErrorCode::ResourceNotFound)),
            Some(i) => {
                let ghost stored = old(self).rows()[i as int];
                proof { lemma_table_at(old(self).rows(), i as int); }
                let password = if user.password.as_str().is_empty() {
                    self.users[i].password.clone()
                } else {
                    user.password
                };
                let row = User {
                    id: user.id,
                    name: user.name,
                    password,
                    access_level: user.access_level,
                };
                assert(row@ == merged(stored, user@));
                proof { lemma_table_update(old(self).rows(), i as int, row@); }
                self.users.set(i, row);
                assert(self.rows() =~= old(self).rows().update(i as int, merged(stored, user@)));
                Ok(())
            },
        }
    }

    fn find(&self, user_id: String) -> (r: Result<User, Error>) {
        let found = self.position(&user_id);
        proof { lemma_table_contains(self.rows(), user_id@); }
        match found {
            None => Err(Error::new(ErrorCode::ResourceNotFound)),
            Some(i) => {
                proof { lemma_table_at(self.rows(), i as int); }
                Ok(copy_user(&self.users[i]))
            },
        }
    }

    fn get_paged(&self, skip: i64, limit: i64) -> (r: Result<Vec<User>, Error>) {
        let len = self.users.len();
        let start: usize = if skip <= 0 {
            0
        } else if skip as u64 >= len as u64 {
            len
        } else {
            skip as usize
        };
        let end: usize = if limit <= 0 {
            start
        } else if limit as u64 >= (len - start) as u64 {
            len
        } else {
            start + limit as usize
        };
        assert(start == page_start(len as int, skip as int));
        assert(end == page_end(len as int, skip as int, limit as int));
        let mut out: Vec<User> = Vec::new();
        let mut k: usize = start;
        while k < end
            invariant
                start <= k <= end <= len,
                len == self.users@.len(),
                user_views(out@) =~= self.rows().subrange(start as int, k as int),
            decreases end - k,
        {
            let ghost before = out@;
            let c = copy_user(&self.users[k]);
            assert(c@ == self.rows()[k as int]);
            out.push(c);
            assert(out@ == before.push(c));
            assert(user_views(out@) =~= user_views(before).push(c@));
            k = k + 1;
        }
        Ok(out)
    }
}

} // verus!

use vstd::prelude::*;

use crate::entity::{user_views, User, UserView};
use crate::error::{Error, ErrorCode};

verus! {

/// The accounts that a sequence of rows holds, keyed by id; a later row wins over an earlier one.
pub open spec fn table(rows: Seq<UserView>) -> Map<Seq<char>, UserView>
    decreases rows.len(),
{
    if rows.len() == 0 {
        Map::empty()
    } else {
        table(rows.drop_last()).insert(rows.last().id, rows.last())
    }
}

/// No two rows share an id.
pub open spec fn ids_unique(rows: Seq<UserView>) -> bool {
    forall|i: int, j: int| 0 <= i < j < rows.len() ==> rows[i].id != rows[j].id
}

/// The record that an update leaves behind: an empty password keeps the stored one.
pub open spec fn merged(stored: UserView, incoming: UserView) -> UserView {
    UserView {
        id: incoming.id,
        name: incoming.name,
        password: if incoming.password.len() == 0 {
            stored.password
        } else {
            incoming.password
        },
        access_level: incoming.access_level,
    }
}

/// Where a page starts: `skip`, clamped into the rows; a negative skip starts at the first row.
pub open spec fn page_start(len: int, skip: int) -> int {
    if skip <= 0 {
        0
    } else if skip >= len {
        len
    } else {
        skip
    }
}

/// Where a page ends: at most `limit` rows after its start; a limit of zero or less gives none.
pub open spec fn page_end(len: int, skip: int, limit: int) -> int {
    let s = page_start(len, skip);
    if limit <= 0 {
        s
    } else if limit >= len - s {
        len
    } else {
        s + limit
    }
}

/// The rows that a page request returns, in storage order.
pub open spec fn page(rows: Seq<UserView>, skip: int, limit: int) -> Seq<UserView> {
    rows.subrange(page_start(rows.len() as int, skip), page_end(rows.len() as int, skip, limit))
}

/// Storage of accounts keyed by id. Its state is a sequence of rows with distinct ids, and
/// whether the store is reliable: a reliable store never fails; any other may fail any call
/// with `DatabaseError`, and then leaves its rows as they were.
pub trait Repository {
    spec fn rows(&self) -> Seq<UserView>;

    spec fn reliable(&self) -> bool;

    fn add(&mut self, user: User) -> (r: Result<(), Error>)
        requires
            ids_unique(old(self).rows()),
        ensures
            ids_unique(final(self).rows()),
            final(self).reliable() == old(self).reliable(),
            r is Ok ==> !table(old(self).rows()).contains_key(user@.id) && table(final(self).rows())
                == table(old(self).rows()).insert(user@.id, user@),
            r is Err ==> final(self).rows() == old(self).rows(),
            r matches Err(e) ==> (e.code == ErrorCode::ResourceAlreadyExists && table(
                old(self).rows(),
            ).contains_key(user@.id)) || (e.code == ErrorCode::DatabaseError && !old(
                self,
            ).reliable()),
            old(self).reliable() && !table(old(self).rows()).contains_key(user@.id) ==> r is Ok,
    ;

    fn remove(&mut self, user_id: String) -> (r: Result<(), Error>)
        requires
            ids_unique(old(self).rows()),
        ensures
            ids_unique(final(self).rows()),
            final(self).reliable() == old(self).reliable(),
            r is Ok ==> table(old(self).rows()).contains_key(user_id@) && table(final(self).rows())
                == table(old(self).rows()).remove(user_id@),
            r is Err ==> final(self).rows() == old(self).rows(),
            r matches Err(e) ==> (e.code == ErrorCode::ResourceNotFound && !table(
                old(self).rows(),
            ).contains_key(user_id@)) || (e.code == ErrorCode::DatabaseError && !old(
                self,
            ).reliable()),
            old(self).reliable() && table(old(self).rows()).contains_key(user_id@) ==> r is Ok,
    ;

    fn update(&mut self, user: User) -> (r: Result<(), Error>)
        requires
            ids_unique(old(self).rows()),
        ensures
            ids_unique(final(self).rows()),
            final(self).reliable() == old(self).reliable(),
            r is Ok ==> table(old(self).rows()).contains_key(user@.id) && table(final(self).rows())
                == table(old(self).rows()).insert(
                user@.id,
                merged(table(old(self).rows())[user@.id], user@),
            ),
            r is Err ==> final(self).rows() == old(self).rows(),
            r matches Err(e) ==> (e.code == ErrorCode::ResourceNotFound && !table(
                old(self).rows(),
            ).contains_key(user@.id)) || (e.code == ErrorCode::DatabaseError && !old(
                self,
            ).reliable()),
            old(self).reliable() && table(old(self).rows()).contains_key(user@.id) ==> r is Ok,
    ;

    fn find(&self, user_id: String) -> (r: Result<User, Error>)
        requires
            ids_unique(self.rows()),
        ensures
            r matches Ok(u) ==> table(self.rows()).contains_key(user_id@) && u@ == table(
                self.rows(),
            )[user_id@],
            r matches Err(e) ==> (e.code == ErrorCode::ResourceNotFound && !table(
                self.rows(),
            ).contains_key(user_id@)) || (e.code == ErrorCode::DatabaseError && !self.reliable()),
            self.reliable() && table(self.rows()).contains_key(user_id@) ==> r is Ok,
    ;

    fn get_paged(&self, skip: i64, limit: i64) -> (r: Result<Vec<User>, Error>)
        requires
            ids_unique(self.rows()),
        ensures
            r matches Ok(v) ==> user_views(v@) == page(self.rows(), skip as int, limit as int),
            r matches Err(e) ==> e.code == ErrorCode::DatabaseError && !self.reliable(),
    ;
}

/// An id is in the table exactly when some row carries it.
pub proof fn lemma_table_contains(rows: Seq<UserView>, id: Seq<char>)
    ensures
        table(rows).contains_key(id) <==> exists|i: int| 0 <= i < rows.len() && rows[i].id == id,
    decreases rows.len(),
{
    if rows.len() > 0 {
        lemma_table_contains(rows.drop_last(), id);
        if table(rows.drop_last()).contains_key(id) {
            let i = choose|i: int| 0 <= i < rows.drop_last().len() && rows.drop_last()[i].id == id;
            assert(rows[i].id == id);
        }
        if exists|i: int| 0 <= i < rows.len() && rows[i].id == id {
            let i = choose|i: int| 0 <= i < rows.len() && rows[i].id == id;
            if i < rows.len() - 1 {
                assert(rows.drop_last()[i].id == id);
            }
        }
    }
}

/// Each account in the table is filed under its own id.
pub proof fn lemma_table_keys(rows: Seq<UserView>, id: Seq<char>)
    requires
        table(rows).contains_key(id),
    ensures
        table(rows)[id].id == id,
    decreases rows.len(),
{
    if rows.len() > 0 && rows.last().id != id {
        lemma_table_keys(rows.drop_last(), id);
    }
}

/// With distinct ids, the table maps each row's id to that row.
pub proof fn lemma_table_at(rows: Seq<UserView>, i: int)
    requires
        ids_unique(rows),
        0 <= i < rows.len(),
    ensures
        table(rows).contains_key(rows[i].id),
        table(rows)[rows[i].id] == rows[i],
    decreases rows.len(),
{
    if i < rows.len() - 1 {
        lemma_table_at(rows.drop_last(), i);
    }
}

/// With distinct ids, dropping a row drops its id from the table.
pub proof fn lemma_table_remove(rows: Seq<UserView>, i: int)
    requires
        ids_unique(rows),
        0 <= i < rows.len(),
    ensures
        table(rows.remove(i)) =~= table(rows).remove(rows[i].id),
        ids_unique(rows.remove(i)),
    decreases rows.len(),
{
    let last = rows.last();
    let init = rows.drop_last();
    if i == rows.len() - 1 {
        assert(rows.remove(i) =~= init);
        lemma_table_contains(init, last.id);
        assert(!table(init).contains_key(last.id));
    } else {
        lemma_table_remove(init, i);
        assert(rows.remove(i) =~= init.remove(i).push(last));
        assert(rows.remove(i).drop_last() =~= init.remove(i));
        assert(last.id != rows[i].id);
    }
}

/// With distinct ids, replacing a row by one with the same id replaces its table entry.
pub proof fn lemma_table_update(rows: Seq<UserView>, i: int, v: UserView)
    requires
        ids_unique(rows),
        0 <= i < rows.len(),
        v.id == rows[i].id,
    ensures
        table(rows.update(i, v)) =~= table(rows).insert(v.id, v),
        ids_unique(rows.update(i, v)),
    decreases rows.len(),
{
    let last = rows.last();
    let init = rows.drop_last();
    if i == rows.len() - 1 {
        assert(rows.update(i, v).drop_last() =~= init);
    } else {
        lemma_table_update(init, i, v);
        assert(rows.update(i, v).drop_last() =~= init.update(i, v));
        assert(last.id != v.id);
    }
}

/// Appending a row with a fresh id keeps ids distinct and adds it to the table.
pub proof fn lemma_table_push(rows: Seq<UserView>, v: UserView)
    requires
        ids_unique(rows),
        !table(rows).contains_key(v.id),
    ensures
        table(rows.push(v)) == table(rows).insert(v.id, v),
        ids_unique(rows.push(v)),
{
    assert(rows.push(v).drop_last() =~= rows);
    lemma_table_contains(rows, v.id);
}

} // verus!

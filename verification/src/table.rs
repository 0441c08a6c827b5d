//! An in-memory users table that answers the service's statements the way
//! a storage engine does. The running service talks to a real engine; this
//! table is the reference against which the service's behaviour over several
//! requests is stated, and a stand-in for the engine where none is at hand.
//!
//! The table can be taken out of service. While it is, every statement
//! fails with the text that was given for the outage and changes nothing.

use vstd::prelude::*;
use vstd::string::*;
use crate::response::user_views;
use crate::storage::{count_view, one_view, row_view, rows_view, StorageError};
use crate::user::{User, UserPayload, UserPayloadView, UserView};

verus! {

/// The text of the failure that a statement meets which expects a row and finds none.
pub open spec fn no_row_text() -> Seq<char> {
    "no rows returned by a query that expected to return at least one row"@
}

/// The text of the failure that an insert meets once every id has been assigned.
pub open spec fn no_id_text() -> Seq<char> {
    "no id is left to assign to a new row"@
}

/// How many rows a statement affects that changes one row if `hit` holds and none otherwise.
pub open spec fn affected(hit: bool) -> nat {
    if hit {
        1
    } else {
        0
    }
}

/// The users table as a mathematical value: its rows in the order in which
/// they were inserted, the id that the next new row receives, and the text
/// of the current outage if the table is out of service.
pub struct TableView {
    pub rows: Seq<UserView>,
    pub next_id: int,
    pub outage: Option<Seq<char>>,
}

impl TableView {
    /// Ids are positive, below the next id to assign, and no two rows share one.
    pub open spec fn wf(self) -> bool {
        &&& 1 <= self.next_id <= i32::MAX + 1
        &&& forall|i: int|
            0 <= i < self.rows.len() ==> 1 <= (#[trigger] self.rows[i]).id < self.next_id
        &&& forall|i: int, j: int|
            0 <= i < j < self.rows.len() ==> (#[trigger] self.rows[i]).id != (
            #[trigger] self.rows[j]).id
    }

    /// The table before any row was inserted, in service.
    pub open spec fn empty() -> TableView {
        TableView { rows: Seq::empty(), next_id: 1, outage: None }
    }

    /// The table is in service.
    pub open spec fn available(self) -> bool {
        self.outage is None
    }

    /// Some row has the id `id`.
    pub open spec fn has(self, id: int) -> bool {
        exists|i: int| 0 <= i < self.rows.len() && (#[trigger] self.rows[i]).id == id
    }

    /// Where the row with the id `id` stands; meaningful where `has(id)`.
    pub open spec fn position(self, id: int) -> int {
        choose|i: int| 0 <= i < self.rows.len() && (#[trigger] self.rows[i]).id == id
    }

    /// The row with the id `id`, if there is one.
    pub open spec fn row(self, id: int) -> Option<UserView> {
        if self.has(id) {
            Some(self.rows[self.position(id)])
        } else {
            None
        }
    }

    /// An id is left for one more row.
    pub open spec fn can_insert(self) -> bool {
        self.next_id <= i32::MAX
    }

    /// Writing the fields of `payload` to the row `id` changes the table:
    /// the row exists and holds something else.
    pub open spec fn changes(self, id: int, payload: UserPayloadView) -> bool {
        &&& self.has(id)
        &&& {
            let row = self.rows[self.position(id)];
            row.username != payload.username || row.email != payload.email
        }
    }

    /// The table with one more row, which holds the fields of `payload` under the next id.
    pub open spec fn with_new_row(self, payload: UserPayloadView) -> TableView {
        TableView {
            rows: self.rows.push(
                UserView { id: self.next_id, username: payload.username, email: payload.email },
            ),
            next_id: self.next_id + 1,
            outage: self.outage,
        }
    }

    /// The table with the fields of `payload` in the row `id`; the table
    /// itself where there is no such row.
    pub open spec fn with_row_written(self, id: int, payload: UserPayloadView) -> TableView {
        if self.has(id) {
            TableView {
                rows: self.rows.update(
                    self.position(id),
                    UserView { id, username: payload.username, email: payload.email },
                ),
                next_id: self.next_id,
                outage: self.outage,
            }
        } else {
            self
        }
    }

    /// The table without the row `id`; the table itself where there is no such row.
    pub open spec fn without_row(self, id: int) -> TableView {
        if self.has(id) {
            TableView {
                rows: self.rows.remove(self.position(id)),
                next_id: self.next_id,
                outage: self.outage,
            }
        } else {
            self
        }
    }

    /// What selecting all rows returns.
    pub open spec fn select_all(self) -> Result<Seq<UserView>, Seq<char>> {
        match self.outage {
            Some(detail) => Err(detail),
            None => Ok(self.rows),
        }
    }

    /// What selecting the row `id` returns, where no row is an answer too.
    pub open spec fn select_by_id(self, id: int) -> Result<Option<UserView>, Seq<char>> {
        match self.outage {
            Some(detail) => Err(detail),
            None => Ok(self.row(id)),
        }
    }

    /// What selecting the row `id` returns, where no row is a failure.
    pub open spec fn select_one(self, id: int) -> Result<UserView, Seq<char>> {
        match self.outage {
            Some(detail) => Err(detail),
            None => match self.row(id) {
                Some(user) => Ok(user),
                None => Err(no_row_text()),
            },
        }
    }

    /// The table after an insert of the fields of `payload`, and what the
    /// insert returns: one affected row, or a failure once every id has been assigned.
    pub open spec fn insert(self, payload: UserPayloadView) -> (TableView, Result<nat, Seq<char>>) {
        match self.outage {
            Some(detail) => (self, Err(detail)),
            None => if self.can_insert() {
                (self.with_new_row(payload), Ok(1))
            } else {
                (self, Err(no_id_text()))
            },
        }
    }

    /// The table after the fields of `payload` were written to the row
    /// `id`, and what the update returns: one affected row where the row
    /// exists and held something else, none where there is no such row or
    /// it held these fields already.
    pub open spec fn update(self, id: int, payload: UserPayloadView) -> (
        TableView,
        Result<nat, Seq<char>>,
    ) {
        match self.outage {
            Some(detail) => (self, Err(detail)),
            None => (self.with_row_written(id, payload), Ok(affected(self.changes(id, payload)))),
        }
    }

    /// The table after the row `id` was deleted, and what the delete
    /// returns: one affected row where the row existed, none where it did not.
    pub open spec fn delete(self, id: int) -> (TableView, Result<nat, Seq<char>>) {
        match self.outage {
            Some(detail) => (self, Err(detail)),
            None => (self.without_row(id), Ok(affected(self.has(id)))),
        }
    }

    /// In a well-formed table a row is found at the one place where its id stands.
    pub proof fn lemma_position(self, id: int, i: int)
        requires
            self.wf(),
            0 <= i < self.rows.len(),
            self.rows[i].id == id,
        ensures
            self.has(id),
            self.position(id) == i,
    {
        let p = self.position(id);
        assert(0 <= p < self.rows.len() && self.rows[p].id == id);
        if p < i {
            assert(self.rows[p].id != self.rows[i].id);
        } else if i < p {
            assert(self.rows[i].id != self.rows[p].id);
        }
    }
}

/// The in-memory users table.
#[derive(Debug)]
pub struct UserTable {
    rows: Vec<User>,
    next_id: u32,
    outage: Option<String>,
}

impl View for UserTable {
    type V = TableView;

    closed spec fn view(&self) -> TableView {
        TableView {
            rows: user_views(self.rows@),
            next_id: self.next_id as int,
            outage: match self.outage {
                Some(detail) => Some(detail@),
                None => None,
            },
        }
    }
}

impl UserTable {
    /// A table without rows, in service, whose first row will receive the id 1.
    pub fn new() -> (table: UserTable)
        ensures
            table@ == TableView::empty(),
            table@.wf(),
    {
        let table = UserTable { rows: Vec::new(), next_id: 1, outage: None };
        assert(table@.rows =~= Seq::<UserView>::empty());
        table
    }

    /// A table without rows, in service, whose first row will receive the
    /// id `first_id`. Ids are positive: there is no table for a `first_id` below 1.
    pub fn starting_at(first_id: i32) -> (table: Option<UserTable>)
        ensures
            match table {
                Some(table) => first_id >= 1 && table@.wf() && table@ == (TableView {
                    next_id: first_id as int,
                    ..TableView::empty()
                }),
                None => first_id < 1,
            },
    {
        if first_id < 1 {
            return None;
        }
        let table = UserTable { rows: Vec::new(), next_id: first_id as u32, outage: None };
        assert(table@.rows =~= Seq::<UserView>::empty());
        Some(table)
    }

    /// Takes the table out of service: from now on every statement fails with `detail`.
    pub fn fail_with(&mut self, detail: &str)
        ensures
            final(self)@ == (TableView { outage: Some(detail@), ..old(self)@ }),
    {
        self.outage = Some(String::from_str(detail));
    }

    /// Puts the table back into service, with the rows it had.
    pub fn restore(&mut self)
        ensures
            final(self)@ == (TableView { outage: None, ..old(self)@ }),
    {
        self.outage = None;
    }

    /// The failure that every statement meets while the table is out of service.
    fn outage(&self) -> (failure: Option<StorageError>)
        ensures
            match failure {
                Some(error) => self@.outage == Some(error@),
                None => self@.outage is None,
            },
    {
        match &self.outage {
            Some(detail) => Some(StorageError { detail: detail.clone() }),
            None => None,
        }
    }

    /// Where the row with the id `id` stands, if there is one.
    fn find(&self, id: u64) -> (found: Option<usize>)
        requires
            self@.wf(),
        ensures
            found is Some <==> self@.has(id as int),
            found matches Some(i) ==> i < self.rows.len() && i == self@.position(id as int),
    {
        let mut i: usize = 0;
        while i < self.rows.len()
            invariant
                i <= self.rows.len(),
                self@.wf(),
                forall|k: int| 0 <= k < i ==> (#[trigger] self@.rows[k]).id != id,
            decreases self.rows.len() - i,
        {
            let row_id: i32 = self.rows[i].id;
            assert(self@.rows[i as int].id == row_id);
            if row_id >= 0 && row_id as u64 == id {
                proof {
                    self@.lemma_position(id as int, i as int);
                }
                return Some(i);
            }
            i += 1;
        }
        None
    }

    /// Selects all rows, in the order in which they were inserted.
    pub fn select_all(&self) -> (outcome: Result<Vec<User>, StorageError>)
        ensures
            rows_view(outcome) == self@.select_all(),
    {
        if let Some(failure) = self.outage() {
            return Err(failure);
        }
        let mut rows: Vec<User> = Vec::new();
        let mut i: usize = 0;
        while i < self.rows.len()
            invariant
                i <= self.rows.len(),
                rows.len() == i,
                forall|k: int| 0 <= k < i ==> rows@[k]@ == self.rows@[k]@,
            decreases self.rows.len() - i,
        {
            rows.push(self.rows[i].clone());
            i += 1;
        }
        assert(user_views(rows@) =~= user_views(self.rows@));
        Ok(rows)
    }

    /// Selects the row with the id `id`; no such row is an answer too.
    pub fn select_by_id(&self, id: u64) -> (outcome: Result<Option<User>, StorageError>)
        requires
            self@.wf(),
        ensures
            row_view(outcome) == self@.select_by_id(id as int),
    {
        if let Some(failure) = self.outage() {
            return Err(failure);
        }
        match self.find(id) {
            Some(i) => Ok(Some(self.rows[i].clone())),
            None => Ok(None),
        }
    }

    /// Selects the row with the id `id`; no such row is a failure.
    pub fn select_one(&self, id: u64) -> (outcome: Result<User, StorageError>)
        requires
            self@.wf(),
        ensures
            one_view(outcome) == self@.select_one(id as int),
    {
        if let Some(failure) = self.outage() {
            return Err(failure);
        }
        match self.find(id) {
            Some(i) => Ok(self.rows[i].clone()),
            None => Err(
                StorageError {
                    detail: String::from_str(
                        "no rows returned by a query that expected to return at least one row",
                    ),
                },
            ),
        }
    }

    /// Inserts a row with the fields of `payload` under the next id, and
    /// reports one affected row. Once every id has been assigned the insert
    /// fails and the table stays as it is.
    pub fn insert(&mut self, payload: &UserPayload) -> (outcome: Result<u64, StorageError>)
        requires
            old(self)@.wf(),
        ensures
            final(self)@.wf(),
            (final(self)@, count_view(outcome)) == old(self)@.insert(payload@),
    {
        if let Some(failure) = self.outage() {
            return Err(failure);
        }
        if self.next_id > 0x7fff_ffff {
            return Err(
                StorageError { detail: String::from_str("no id is left to assign to a new row") },
            );
        }
        let ghost before = self@;
        let id: i32 = self.next_id as i32;
        self.rows.push(
            User { id, username: payload.username.clone(), email: payload.email.clone() },
        );
        self.next_id = self.next_id + 1;
        assert(self@.rows =~= before.with_new_row(payload@).rows);
        Ok(1)
    }

    /// Writes the fields of `payload` to the row `id` and reports how many
    /// rows that changed: one where the row exists and held something else,
    /// none where there is no such row or it held these fields already.
    pub fn update(&mut self, id: u64, payload: &UserPayload) -> (outcome: Result<u64, StorageError>)
        requires
            old(self)@.wf(),
        ensures
            final(self)@.wf(),
            (final(self)@, count_view(outcome)) == old(self)@.update(id as int, payload@),
    {
        if let Some(failure) = self.outage() {
            return Err(failure);
        }
        let ghost before = self@;
        match self.find(id) {
            Some(i) => {
                let same = self.rows[i].username == payload.username && self.rows[i].email
                    == payload.email;
                let row_id: i32 = self.rows[i].id;
                self.rows.set(
                    i,
                    User {
                        id: row_id,
                        username: payload.username.clone(),
                        email: payload.email.clone(),
                    },
                );
                assert(self@.rows =~= before.with_row_written(id as int, payload@).rows);
                if same {
                    Ok(0)
                } else {
                    Ok(1)
                }
            },
            None => Ok(0),
        }
    }

    /// Deletes the row `id` and reports how many rows that removed: one
    /// where the row existed, none where it did not.
    pub fn delete(&mut self, id: u64) -> (outcome: Result<u64, StorageError>)
        requires
            old(self)@.wf(),
        ensures
            final(self)@.wf(),
            (final(self)@, count_view(outcome)) == old(self)@.delete(id as int),
    {
        if let Some(failure) = self.outage() {
            return Err(failure);
        }
        let ghost before = self@;
        match self.find(id) {
            Some(i) => {
                self.rows.remove(i);
                assert(self@.rows =~= before.without_row(id as int).rows);
                Ok(1)
            },
            None => Ok(0),
        }
    }
}

} // verus!

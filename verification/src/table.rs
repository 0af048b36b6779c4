//! The relation of accounts: rows keyed by a number that the relation assigns,
//! with at most one row for each pair of workspace and address.

use crate::user::{option_view, result_view, NewUser, NewUserView, User, UserRow, UserRowView, UserView};
use vstd::prelude::*;
use vstd::string::*;

verus! {

/// Why the relation refused a statement.
#[derive(Debug, PartialEq, Eq)]
pub enum StoreFault {
    /// A row for the same workspace and address already exists.
    UniqueViolation,
    /// Any other failure, with its message.
    Other(String),
}

/// A `StoreFault` with its message as a sequence of characters.
#[verifier::ext_equal]
pub enum StoreFaultView {
    UniqueViolation,
    Other(Seq<char>),
}

impl View for StoreFault {
    type V = StoreFaultView;

    open spec fn view(&self) -> StoreFaultView {
        match *self {
            StoreFault::UniqueViolation => StoreFaultView::UniqueViolation,
            StoreFault::Other(text) => StoreFaultView::Other(text@),
        }
    }
}

/// The message of the fault that an insert meets when no number is left.
pub open spec fn exhausted() -> Seq<char> {
    "user id sequence exhausted"@
}

/// The relation as a value: its rows in the order of their insertion, and the
/// number that the next row will get.
#[verifier::ext_equal]
pub struct TableView {
    pub rows: Seq<UserRowView>,
    pub next_id: int,
}

impl TableView {
    /// No two rows share a number, no two rows share workspace and address,
    /// and every number in use lies below the next one to be assigned.
    pub open spec fn wf(self) -> bool {
        &&& forall|i: int| 0 <= i < self.rows.len() ==> (#[trigger] self.rows[i]).id < self.next_id
        &&& forall|i: int, j: int|
            0 <= i < j < self.rows.len() ==> (#[trigger] self.rows[i]).id != (
            #[trigger] self.rows[j]).id
        &&& forall|i: int, j: int|
            0 <= i < j < self.rows.len() ==> !(#[trigger] self.rows[i]).keyed(
                (#[trigger] self.rows[j]).ws_id,
                self.rows[j].email,
            )
    }

    /// Whether `email` has a row in workspace `ws_id`.
    pub open spec fn holds(self, ws_id: int, email: Seq<char>) -> bool {
        exists|i: int| 0 <= i < self.rows.len() && (#[trigger] self.rows[i]).keyed(ws_id, email)
    }

    /// Where the row of `email` in workspace `ws_id` stands, if there is one.
    pub open spec fn position(self, ws_id: int, email: Seq<char>) -> int {
        choose|i: int| 0 <= i < self.rows.len() && (#[trigger] self.rows[i]).keyed(ws_id, email)
    }

    /// The row of `email` in workspace `ws_id`.
    pub open spec fn lookup(self, ws_id: int, email: Seq<char>) -> Option<UserRowView> {
        if self.holds(ws_id, email) {
            Some(self.rows[self.position(ws_id, email)])
        } else {
            None
        }
    }

    /// Whether a row has the number `id`.
    pub open spec fn holds_id(self, id: int) -> bool {
        exists|i: int| 0 <= i < self.rows.len() && (#[trigger] self.rows[i]).id == id
    }

    /// Where the row with the number `id` stands, if there is one.
    pub open spec fn position_of_id(self, id: int) -> int {
        choose|i: int| 0 <= i < self.rows.len() && (#[trigger] self.rows[i]).id == id
    }

    /// The relation with one more row, made of `new` at the time `now`.
    pub open spec fn with_row(self, new: NewUserView, now: int) -> TableView {
        TableView { rows: self.rows.push(new.row(self.next_id, now)), next_id: self.next_id + 1 }
    }

    /// What an insert of `new` at the time `now` does: the relation after it,
    /// and the public record of the new row or the reason why there is none.
    pub open spec fn insert(self, new: NewUserView, now: int) -> (
        TableView,
        Result<UserView, StoreFaultView>,
    ) {
        if self.holds(new.ws_id, new.email) {
            (self, Err(StoreFaultView::UniqueViolation))
        } else if self.next_id >= i64::MAX {
            (self, Err(StoreFaultView::Other(exhausted())))
        } else {
            (self.with_row(new, now), Ok(new.row(self.next_id, now).public()))
        }
    }

    /// The relation without the row numbered `id`.
    pub open spec fn delete(self, id: int) -> TableView {
        if self.holds_id(id) {
            TableView { rows: self.rows.remove(self.position_of_id(id)), next_id: self.next_id }
        } else {
            self
        }
    }

    /// The relation without the row of `email` in workspace `ws_id`.
    pub open spec fn delete_by_email(self, ws_id: int, email: Seq<char>) -> TableView {
        if self.holds(ws_id, email) {
            TableView { rows: self.rows.remove(self.position(ws_id, email)), next_id: self.next_id }
        } else {
            self
        }
    }
}

/// The relation of accounts, held in memory.
pub struct UserTable {
    rows: Vec<UserRow>,
    next_id: i64,
}

impl View for UserTable {
    type V = TableView;

    closed spec fn view(&self) -> TableView {
        TableView {
            rows: self.rows@.map_values(|row: UserRow| row@),
            next_id: self.next_id as int,
        }
    }
}

impl UserTable {
    /// Holds of every relation at every step: `use_type_invariant` makes it
    /// known to a proof.
    #[verifier::type_invariant]
    pub open spec fn inv(self) -> bool {
        self@.wf()
    }

    /// An empty relation whose first row will get the number 1.
    pub fn new() -> (table: UserTable)
        ensures
            table@ == (TableView { rows: Seq::empty(), next_id: 1 }),
    {
        UserTable::starting_at(1)
    }

    /// An empty relation whose first row will get the number `first_id`.
    pub fn starting_at(first_id: i64) -> (table: UserTable)
        ensures
            table@ == (TableView { rows: Seq::empty(), next_id: first_id as int }),
    {
        let table = UserTable { rows: Vec::new(), next_id: first_id };
        assert(table@.rows =~= Seq::empty());
        table
    }

    /// How many rows the relation holds.
    pub fn len(&self) -> (n: usize)
        ensures
            n == self@.rows.len(),
    {
        self.rows.len()
    }

    /// Moves the rows out and leaves none behind. While rows change they are
    /// held apart from the relation, which so stays well formed at every step.
    fn take_rows(&mut self) -> (rows: Vec<UserRow>)
        ensures
            old(self)@.wf(),
            rows@.map_values(|row: UserRow| row@) == old(self)@.rows,
            final(self)@ == (TableView { rows: Seq::empty(), next_id: old(self)@.next_id }),
    {
        proof {
            use_type_invariant(&*self);
        }
        let mut rows = Vec::new();
        std::mem::swap(&mut self.rows, &mut rows);
        assert(self@.rows =~= Seq::empty());
        rows
    }

    fn remove_at(&mut self, i: usize)
        requires
            i < old(self)@.rows.len(),
        ensures
            old(self)@.wf(),
            final(self)@.wf(),
            final(self)@ == (TableView {
                rows: old(self)@.rows.remove(i as int),
                next_id: old(self)@.next_id,
            }),
    {
        let mut rows = self.take_rows();
        rows.remove(i);
        assert(rows@.map_values(|row: UserRow| row@) =~= old(self)@.rows.remove(i as int));
        self.rows = rows;
    }

    fn index_of(&self, email: &String, ws_id: i32) -> (found: Option<usize>)
        ensures
            self@.wf(),
            match found {
                Some(i) => i < self@.rows.len() && self@.holds(ws_id as int, email@) && i
                    == self@.position(ws_id as int, email@),
                None => !self@.holds(ws_id as int, email@),
            },
    {
        proof {
            use_type_invariant(self);
        }
        let mut i: usize = 0;
        while i < self.rows.len()
            invariant
                self@.wf(),
                i <= self.rows.len(),
                forall|j: int| 0 <= j < i ==> !(#[trigger] self@.rows[j]).keyed(ws_id as int, email@),
            decreases self.rows.len() - i,
        {
            if self.rows[i].ws_id == ws_id && self.rows[i].email == *email {
                assert(self@.rows[i as int].keyed(ws_id as int, email@));
                return Some(i);
            }
            i += 1;
        }
        None
    }

    fn index_of_id(&self, id: i64) -> (found: Option<usize>)
        ensures
            self@.wf(),
            match found {
                Some(i) => i < self@.rows.len() && self@.holds_id(id as int) && i
                    == self@.position_of_id(id as int),
                None => !self@.holds_id(id as int),
            },
    {
        proof {
            use_type_invariant(self);
        }
        let mut i: usize = 0;
        while i < self.rows.len()
            invariant
                self@.wf(),
                i <= self.rows.len(),
                forall|j: int| 0 <= j < i ==> (#[trigger] self@.rows[j]).id != id,
            decreases self.rows.len() - i,
        {
            if self.rows[i].id == id {
                assert(self@.rows[i as int].id == id);
                return Some(i);
            }
            i += 1;
        }
        None
    }

    /// The row of `email` in workspace `ws_id`, if there is one.
    pub fn select_by_email(&self, email: &str, ws_id: i32) -> (found: Option<UserRow>)
        ensures
            option_view(found) == self@.lookup(ws_id as int, email@),
    {
        let wanted = email.to_owned();
        match self.index_of(&wanted, ws_id) {
            Some(i) => Some(self.rows[i].duplicate()),
            None => None,
        }
    }

    /// Inserts a row made of `new` at the time `now`, under the next free
    /// number, and returns its public record. Refused with `UniqueViolation`
    /// where the workspace already has a row for the address, and with `Other`
    /// where no number is left.
    pub fn insert(&mut self, new: NewUser, now: i64) -> (res: Result<User, StoreFault>)
        ensures
            (final(self)@, result_view(res)) == old(self)@.insert(new@, now as int),
    {
        if self.index_of(&new.email, new.ws_id).is_some() {
            return Err(StoreFault::UniqueViolation);
        }
        if self.next_id == i64::MAX {
            return Err(StoreFault::Other(String::from_str("user id sequence exhausted")));
        }
        let id = self.next_id;
        let row = UserRow {
            id,
            ws_id: new.ws_id,
            fullname: new.fullname,
            email: new.email,
            password_hash: new.password_hash,
            created_at: now,
        };
        let user = row.public();
        let mut rows = self.take_rows();
        rows.push(row);
        self.next_id = id + 1;
        assert(rows@.map_values(|row: UserRow| row@) =~= old(self)@.rows.push(
            new@.row(id as int, now as int),
        ));
        self.rows = rows;
        Ok(user)
    }

    /// Removes the row numbered `id`. Returns how many rows were removed:
    /// one, or none where no row has that number.
    pub fn delete_by_id(&mut self, id: i64) -> (removed: u64)
        ensures
            final(self)@ == old(self)@.delete(id as int),
            removed == (if old(self)@.holds_id(id as int) { 1u64 } else { 0u64 }),
    {
        match self.index_of_id(id) {
            Some(i) => {
                self.remove_at(i);
                1
            },
            None => 0,
        }
    }

    /// Removes the row of `email` in workspace `ws_id`. Returns how many rows
    /// were removed: one, or none where there is no such row.
    pub fn delete_by_email(&mut self, email: &str, ws_id: i32) -> (removed: u64)
        ensures
            final(self)@ == old(self)@.delete_by_email(ws_id as int, email@),
            removed == (if old(self)@.holds(ws_id as int, email@) { 1u64 } else { 0u64 }),
    {
        let wanted = email.to_owned();
        match self.index_of(&wanted, ws_id) {
            Some(i) => {
                self.remove_at(i);
                1
            },
            None => 0,
        }
    }
}

} // verus!

//! The account operations: create, find, sign in, delete. Each one is a few
//! decisions around statements on the relation of accounts. The decisions are
//! functions of their own, so that a caller whose relation lives elsewhere can
//! run the statements itself and take every decision from here.

use crate::error::{AppError, AppErrorView};
use crate::password::{
    check, hash_of, hash_password, phc_well_formed, verify_password, LONGEST_PASSWORD,
};
use crate::table::{exhausted, StoreFault, StoreFaultView, TableView, UserTable};
use crate::user::{
    option_view, result_view, CreateUser, CreateUserView, NewUser, NewUserView, SignInUser, User,
    UserRow, UserRowView, UserView,
};
use vstd::prelude::*;

verus! {

/// The public record of a row that a lookup found.
pub open spec fn public_of(row: Option<UserRowView>) -> Option<UserView> {
    match row {
        Some(row) => Some(row.public()),
        None => None,
    }
}

/// The decision before an insert: an address that is taken in its workspace
/// is refused by name, any other request becomes the values to insert.
pub open spec fn plan_insert_spec(
    input: CreateUserView,
    password_hash: Seq<char>,
    taken: bool,
) -> Result<NewUserView, AppErrorView> {
    if taken {
        Err(AppErrorView::EmailAlreadyExists(input.email))
    } else {
        Ok(input.to_insert(password_hash))
    }
}

/// The decision after an insert. A uniqueness fault means that another
/// account took the address between the lookup and the insert, and is
/// reported like a lookup that found it; any other fault keeps its message.
pub open spec fn from_insert_spec(
    outcome: Result<UserView, StoreFaultView>,
    email: Seq<char>,
) -> Result<UserView, AppErrorView> {
    match outcome {
        Ok(user) => Ok(user),
        Err(StoreFaultView::UniqueViolation) => Err(AppErrorView::EmailAlreadyExists(email)),
        Err(StoreFaultView::Other(text)) => Err(AppErrorView::SqlxError(text)),
    }
}

/// What creating an account comes to, once the password has been hashed with
/// the result `hashed`: the relation afterwards, and the new account or the
/// reason why there is none. A failed hash is handed on; an address that the
/// workspace holds is refused by name; a relation with no number left reports
/// a store error; otherwise one row is added, and everything of it but the
/// hash is returned. Only the last case changes the relation.
pub open spec fn create_spec(
    table: TableView,
    input: CreateUserView,
    hashed: Result<Seq<char>, AppErrorView>,
    now: int,
) -> (TableView, Result<UserView, AppErrorView>) {
    match hashed {
        Err(cause) => (table, Err(cause)),
        Ok(password_hash) => if table.holds(input.ws_id, input.email) {
            (table, Err(AppErrorView::EmailAlreadyExists(input.email)))
        } else if table.next_id >= i64::MAX {
            (table, Err(AppErrorView::SqlxError(exhausted())))
        } else {
            let new = input.to_insert(password_hash);
            (table.with_row(new, now), Ok(new.row(table.next_id, now).public()))
        },
    }
}

/// Whether a sign-in attempt on `row` must be reported as a fault: there is a
/// row, and its stored hash does not parse.
pub open spec fn corrupt(row: Option<UserRowView>) -> bool {
    row matches Some(row) && !phc_well_formed(row.password_hash)
}

/// The account that a sign-in attempt with `password` opens: the one of `row`
/// where the stored hash accepts the password, none otherwise. An unknown
/// account and a wrong password give the same answer.
pub open spec fn signed_in(row: Option<UserRowView>, password: Seq<char>) -> Option<UserView> {
    match row {
        Some(row) => if check(password, row.password_hash) == Some(true) {
            Some(row.public())
        } else {
            None
        },
        None => None,
    }
}

impl User {
    /// The account of `email` in workspace `ws_id`, or `None` where there is
    /// none. Absence is no error.
    pub fn find_by_email(email: &str, ws_id: i32, table: &UserTable) -> (res: Result<
        Option<User>,
        AppError,
    >)
        ensures
            res matches Ok(found) && option_view(found) == public_of(
                table@.lookup(ws_id as int, email@),
            ),
    {
        let found = match table.select_by_email(email, ws_id) {
            Some(row) => Some(row.public()),
            None => None,
        };
        User::from_select(Ok(found))
    }

    /// Decides what a lookup's outcome means for the caller: the account that
    /// was found, or none; a failure of the store, given by its message, is
    /// a store error.
    pub fn from_select(outcome: Result<Option<User>, String>) -> (res: Result<
        Option<User>,
        AppError,
    >)
        ensures
            match outcome {
                Ok(found) => res matches Ok(same) && same == found,
                Err(text) => res matches Err(AppError::SqlxError(same)) && same == text,
            },
    {
        match outcome {
            Ok(found) => Ok(found),
            Err(text) => Err(AppError::SqlxError(text)),
        }
    }

    /// Decides what follows the lookup that precedes an insert. `taken` says
    /// whether the lookup found the address in the workspace.
    pub fn plan_insert(input: CreateUser, password_hash: String, taken: bool) -> (res: Result<
        NewUser,
        AppError,
    >)
        ensures
            result_view(res) == plan_insert_spec(input@, password_hash@, taken),
    {
        if taken {
            Err(AppError::EmailAlreadyExists(input.email))
        } else {
            Ok(
                NewUser {
                    ws_id: input.ws_id,
                    email: input.email,
                    fullname: input.full_name,
                    password_hash,
                },
            )
        }
    }

    /// Decides what an insert's outcome means for the caller of `create`.
    /// `email` is the address that the insert was for.
    pub fn from_insert(outcome: Result<User, StoreFault>, email: String) -> (res: Result<
        User,
        AppError,
    >)
        ensures
            result_view(res) == from_insert_spec(result_view(outcome), email@),
    {
        match outcome {
            Ok(user) => Ok(user),
            Err(StoreFault::UniqueViolation) => Err(AppError::EmailAlreadyExists(email)),
            Err(StoreFault::Other(text)) => Err(AppError::SqlxError(text)),
        }
    }

    /// Creates an account from `input`, given the result `hashed` of hashing
    /// its password: a failed hash is handed on, an address that is taken in
    /// its workspace is refused, and otherwise one row is inserted at the
    /// time `now` and its public record returned.
    pub fn create_with_hash(
        input: CreateUser,
        hashed: Result<String, AppError>,
        table: &mut UserTable,
        now: i64,
    ) -> (res: Result<User, AppError>)
        ensures
            (final(table)@, result_view(res)) == create_spec(
                old(table)@,
                input@,
                result_view(hashed),
                now as int,
            ),
    {
        let password_hash = match hashed {
            Ok(password_hash) => password_hash,
            Err(cause) => {
                return Err(cause);
            },
        };
        let taken = table.select_by_email(input.email.as_str(), input.ws_id).is_some();
        let email = input.email.clone();
        let new = match User::plan_insert(input, password_hash, taken) {
            Ok(new) => new,
            Err(cause) => {
                return Err(cause);
            },
        };
        let outcome = table.insert(new, now);
        User::from_insert(outcome, email)
    }

    /// Creates an account from `input` at the time `now`. The password is
    /// hashed under a fresh salt and only the hash is stored. What comes back
    /// is what `create_with_hash` gives for the hasher's result, whichever
    /// that was: a stored string that accepts the password, or, for a
    /// password of more than `LONGEST_PASSWORD` characters only, a
    /// `PasswordHashError`.
    pub fn create(input: CreateUser, table: &mut UserTable, now: i64) -> (res: Result<
        User,
        AppError,
    >)
        ensures
            input.password@.len() <= LONGEST_PASSWORD && !old(table)@.holds(
                input@.ws_id,
                input@.email,
            ) && old(table)@.next_id < i64::MAX ==> res is Ok,
            exists|hashed: Result<Seq<char>, AppErrorView>|
                {
                    &&& hashed matches Ok(stored) ==> hash_of(input.password@, stored)
                    &&& hashed matches Err(cause) ==> cause is PasswordHashError
                    &&& input.password@.len() <= LONGEST_PASSWORD ==> hashed is Ok
                    &&& (final(table)@, result_view(res)) == #[trigger] create_spec(
                        old(table)@,
                        input@,
                        hashed,
                        now as int,
                    )
                },
    {
        let hashed = hash_password(input.password.as_str());
        let ghost witness = result_view(hashed);
        let res = User::create_with_hash(input, hashed, table, now);
        assert((table@, result_view(res)) == create_spec(
            old(table)@,
            input@,
            witness,
            now as int,
        ));
        res
    }

    /// Decides a sign-in attempt on the row `row`, given the result `checked`
    /// of checking the password against the row's stored hash: a failed check
    /// is handed on, an accepted password opens the account, a refused one
    /// opens none.
    pub fn sign_in_outcome(row: UserRow, checked: Result<bool, AppError>) -> (res: Result<
        Option<User>,
        AppError,
    >)
        ensures
            match checked {
                Ok(true) => res matches Ok(Some(user)) && user@ == row@.public(),
                Ok(false) => res matches Ok(None),
                Err(cause) => res matches Err(e) && e@ == cause@,
            },
    {
        match checked {
            Ok(valid) => if valid {
                Ok(Some(row.public()))
            } else {
                Ok(None)
            },
            Err(cause) => Err(cause),
        }
    }

    /// Decides a sign-in attempt with `password`, given the row that the
    /// lookup found. No row and a wrong password both give `Ok(None)`; a
    /// stored hash that does not parse gives `PasswordHashError`.
    pub fn sign_in(row: Option<UserRow>, password: &str) -> (res: Result<Option<User>, AppError>)
        ensures
            if corrupt(option_view(row)) {
                res matches Err(e) && e is PasswordHashError
            } else {
                res matches Ok(user) && option_view(user) == signed_in(
                    option_view(row),
                    password@,
                )
            },
    {
        match row {
            Some(row) => {
                let checked = verify_password(password, row.password_hash.as_str());
                User::sign_in_outcome(row, checked)
            },
            None => Ok(None),
        }
    }

    /// Decides a sign-in attempt with `password`, given the outcome of the
    /// lookup: a failure of the store, given by its message, is a store
    /// error; a row or none is decided as `sign_in` does.
    pub fn sign_in_from(outcome: Result<Option<UserRow>, String>, password: &str) -> (res: Result<
        Option<User>,
        AppError,
    >)
        ensures
            match outcome {
                Ok(row) => if corrupt(option_view(row)) {
                    res matches Err(e) && e is PasswordHashError
                } else {
                    res matches Ok(user) && option_view(user) == signed_in(
                        option_view(row),
                        password@,
                    )
                },
                Err(text) => res matches Err(AppError::SqlxError(same)) && same == text,
            },
    {
        match outcome {
            Ok(row) => User::sign_in(row, password),
            Err(text) => Err(AppError::SqlxError(text)),
        }
    }

    /// Signs in: looks up the account of `input.email` in workspace
    /// `input.ws_id` and checks `input.password` against its stored hash.
    pub fn verify(input: &SignInUser, table: &UserTable) -> (res: Result<Option<User>, AppError>)
        ensures
            if corrupt(table@.lookup(input@.ws_id, input@.email)) {
                res matches Err(e) && e is PasswordHashError
            } else {
                res matches Ok(user) && option_view(user) == signed_in(
                    table@.lookup(input@.ws_id, input@.email),
                    input@.password,
                )
            },
    {
        let row = table.select_by_email(input.email.as_str(), input.ws_id);
        User::sign_in_from(Ok(row), input.password.as_str())
    }

    /// Whether a delete statement that touched `rows_affected` rows removed
    /// an account.
    pub fn removed(rows_affected: u64) -> (res: bool)
        ensures
            res == (rows_affected > 0),
    {
        rows_affected > 0
    }

    /// Decides what a delete's outcome means for the caller: whether the
    /// statement removed a row; a failure of the store, given by its message,
    /// is a store error.
    pub fn from_delete(outcome: Result<u64, String>) -> (res: Result<bool, AppError>)
        ensures
            match outcome {
                Ok(rows_affected) => res matches Ok(removed) && removed == (rows_affected > 0),
                Err(text) => res matches Err(AppError::SqlxError(same)) && same == text,
            },
    {
        match outcome {
            Ok(rows_affected) => Ok(User::removed(rows_affected)),
            Err(text) => Err(AppError::SqlxError(text)),
        }
    }

    /// Deletes the account numbered `user_id`. Returns whether there was one;
    /// deleting what does not exist is no error.
    pub fn delete(user_id: i64, table: &mut UserTable) -> (res: Result<bool, AppError>)
        ensures
            final(table)@ == old(table)@.delete(user_id as int),
            res matches Ok(removed) && removed == old(table)@.holds_id(user_id as int),
    {
        User::from_delete(Ok(table.delete_by_id(user_id)))
    }

    /// Deletes the account of `email` in workspace `ws_id`. Returns whether
    /// there was one.
    pub fn delete_by_email(email: &str, ws_id: i32, table: &mut UserTable) -> (res: Result<
        bool,
        AppError,
    >)
        ensures
            final(table)@ == old(table)@.delete_by_email(ws_id as int, email@),
            res matches Ok(removed) && removed == old(table)@.holds(ws_id as int, email@),
    {
        User::from_delete(Ok(table.delete_by_email(email, ws_id)))
    }
}

} // verus!

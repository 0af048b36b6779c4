//! What holds of the account operations taken together, proved over their
//! specifications.

use crate::error::AppErrorView;
use crate::password::{check, hash_of};
use crate::store::{corrupt, create_spec, from_insert_spec, plan_insert_spec, public_of, signed_in};
use crate::table::TableView;
use crate::user::{CreateUserView, NewUserView, UserView};
use vstd::prelude::*;

verus! {

/// In a well-formed relation every row is the one that a lookup of its own
/// workspace and address finds, and the one that a lookup of its number finds.
pub proof fn law_each_row_is_found(table: TableView, i: int)
    requires
        table.wf(),
        0 <= i < table.rows.len(),
    ensures
        table.holds(table.rows[i].ws_id, table.rows[i].email),
        table.position(table.rows[i].ws_id, table.rows[i].email) == i,
        table.lookup(table.rows[i].ws_id, table.rows[i].email) == Some(table.rows[i]),
        table.holds_id(table.rows[i].id),
        table.position_of_id(table.rows[i].id) == i,
{
}

/// Creating an account leaves the relation well formed, whatever the outcome.
pub proof fn law_create_keeps_well_formed(
    table: TableView,
    input: CreateUserView,
    hashed: Result<Seq<char>, AppErrorView>,
    now: int,
)
    requires
        table.wf(),
    ensures
        create_spec(table, input, hashed, now).0.wf(),
{
}

/// An insert leaves the relation well formed, whatever the outcome.
pub proof fn law_insert_keeps_well_formed(table: TableView, new: NewUserView, now: int)
    requires
        table.wf(),
    ensures
        table.insert(new, now).0.wf(),
{
}

/// A delete, by number or by address, leaves the relation well formed.
pub proof fn law_delete_keeps_well_formed(table: TableView, id: int, ws_id: int, email: Seq<char>)
    requires
        table.wf(),
    ensures
        table.delete(id).wf(),
        table.delete_by_email(ws_id, email).wf(),
{
}

/// An account that was created is found under its workspace and address, and
/// its public record is the one that `create` returned.
pub proof fn law_created_is_found(
    table: TableView,
    input: CreateUserView,
    hashed: Result<Seq<char>, AppErrorView>,
    now: int,
)
    requires
        table.wf(),
        create_spec(table, input, hashed, now).1 is Ok,
    ensures
        !table.holds(input.ws_id, input.email),
        hashed is Ok,
        ({
            let (after, created) = create_spec(table, input, hashed, now);
            let row = after.lookup(input.ws_id, input.email);
            &&& row == Some(input.to_insert(hashed->Ok_0).row(table.next_id, now))
            &&& public_of(row) == Some(created->Ok_0)
        }),
{
    let after = create_spec(table, input, hashed, now).0;
    law_each_row_is_found(after, table.rows.len() as int);
}

/// Creating or deleting an account changes nothing for any other pair of
/// workspace and address: what a lookup of that pair finds stays the same.
/// In particular the same address in another workspace is another account.
pub proof fn law_other_accounts_untouched(
    table: TableView,
    input: CreateUserView,
    hashed: Result<Seq<char>, AppErrorView>,
    now: int,
    ws_id: int,
    email: Seq<char>,
)
    requires
        table.wf(),
        ws_id != input.ws_id || email != input.email,
    ensures
        create_spec(table, input, hashed, now).0.lookup(ws_id, email) == table.lookup(
            ws_id,
            email,
        ),
        table.delete_by_email(input.ws_id, input.email).lookup(ws_id, email) == table.lookup(
            ws_id,
            email,
        ),
{
    let created = create_spec(table, input, hashed, now).0;
    if created != table && table.holds(ws_id, email) {
        // The row of the pair keeps its place when a row is added behind it.
        let q = table.position(ws_id, email);
        assert(created.rows[q] == table.rows[q]);
    }
    let deleted = table.delete_by_email(input.ws_id, input.email);
    if deleted != table && table.holds(ws_id, email) {
        // The row of the pair moves up by one where the removed row stood before it.
        let p = table.position(input.ws_id, input.email);
        let q = table.position(ws_id, email);
        assert(deleted.rows[if q < p { q } else { q - 1 }] == table.rows[q]);
    }
}

/// A second account for an address that the workspace already holds is
/// refused with `EmailAlreadyExists`, and the relation stays as it was.
pub proof fn law_duplicate_is_refused(
    table: TableView,
    first: CreateUserView,
    first_hashed: Result<Seq<char>, AppErrorView>,
    first_now: int,
    second: CreateUserView,
    second_hash: Seq<char>,
    second_now: int,
)
    requires
        table.wf(),
        create_spec(table, first, first_hashed, first_now).1 is Ok,
        second.ws_id == first.ws_id,
        second.email == first.email,
    ensures
        ({
            let after = create_spec(table, first, first_hashed, first_now).0;
            create_spec(after, second, Ok(second_hash), second_now) == (
                after,
                Err::<UserView, AppErrorView>(AppErrorView::EmailAlreadyExists(first.email)),
            )
        }),
{
    law_created_is_found(table, first, first_hashed, first_now);
}

/// The address of an existing account can be registered again in another
/// workspace: that workspace not holding it yet, and a number being left for
/// the row, the second account is created.
pub proof fn law_other_workspace_is_admitted(
    table: TableView,
    first: CreateUserView,
    first_hashed: Result<Seq<char>, AppErrorView>,
    first_now: int,
    second: CreateUserView,
    second_hash: Seq<char>,
    second_now: int,
)
    requires
        table.wf(),
        create_spec(table, first, first_hashed, first_now).1 is Ok,
        second.ws_id != first.ws_id,
        second.email == first.email,
        !table.holds(second.ws_id, second.email),
        table.next_id + 1 < i64::MAX,
    ensures
        ({
            let after = create_spec(table, first, first_hashed, first_now).0;
            let (last, created) = create_spec(after, second, Ok(second_hash), second_now);
            &&& created is Ok
            &&& last.holds(first.ws_id, first.email)
            &&& last.holds(second.ws_id, second.email)
        }),
{
    let after = create_spec(table, first, first_hashed, first_now).0;
    law_created_is_found(table, first, first_hashed, first_now);
    law_other_accounts_untouched(
        table,
        first,
        first_hashed,
        first_now,
        second.ws_id,
        second.email,
    );
    law_created_is_found(after, second, Ok(second_hash), second_now);
    law_other_accounts_untouched(
        after,
        second,
        Ok(second_hash),
        second_now,
        first.ws_id,
        first.email,
    );
}

/// Where a workspace holds no account for an address, finding it gives none
/// and signing in to it gives none, with any password and without a fault.
pub proof fn law_unknown_account(table: TableView, ws_id: int, email: Seq<char>, password: Seq<char>)
    requires
        !table.holds(ws_id, email),
    ensures
        public_of(table.lookup(ws_id, email)) is None,
        signed_in(table.lookup(ws_id, email), password) is None,
        !corrupt(table.lookup(ws_id, email)),
{
}

/// An account created with a password signs in with that password, and gets
/// the record that `create` returned. A password that the stored hash does
/// not accept signs nobody in.
pub proof fn law_created_signs_in(
    table: TableView,
    input: CreateUserView,
    stored: Seq<char>,
    now: int,
    other: Seq<char>,
)
    requires
        table.wf(),
        hash_of(input.password, stored),
        create_spec(table, input, Ok(stored), now).1 is Ok,
    ensures
        ({
            let (after, created) = create_spec(table, input, Ok(stored), now);
            let row = after.lookup(input.ws_id, input.email);
            &&& !corrupt(row)
            &&& signed_in(row, input.password) == Some(created->Ok_0)
            &&& check(other, stored) != Some(true) ==> signed_in(row, other) is None
        }),
{
    law_created_is_found(table, input, Ok(stored), now);
}

/// After a delete by address the workspace holds no account for the address:
/// a lookup finds none, and a second delete removes nothing.
pub proof fn law_deleted_is_absent(table: TableView, ws_id: int, email: Seq<char>)
    requires
        table.wf(),
    ensures
        ({
            let after = table.delete_by_email(ws_id, email);
            &&& !after.holds(ws_id, email)
            &&& after.lookup(ws_id, email) is None
            &&& after.delete_by_email(ws_id, email) == after
        }),
{
}

/// After a delete by number no account has the number, and a second delete
/// removes nothing.
pub proof fn law_deleted_id_is_absent(table: TableView, id: int)
    requires
        table.wf(),
    ensures
        !table.delete(id).holds_id(id),
        table.delete(id).delete(id) == table.delete(id),
{
}

/// Deleting an account by its number and deleting it by its workspace and
/// address are the same: both leave the relation without that one row.
pub proof fn law_deletes_agree(table: TableView, i: int)
    requires
        table.wf(),
        0 <= i < table.rows.len(),
    ensures
        table.delete(table.rows[i].id) == table.delete_by_email(
            table.rows[i].ws_id,
            table.rows[i].email,
        ),
        table.delete(table.rows[i].id).rows.len() == table.rows.len() - 1,
{
}

/// Two requests for the same address in the same workspace that both looked
/// it up before either inserted: both lookups find nothing, the insert that
/// comes first succeeds, and the one that comes second meets the relation's
/// uniqueness and is reported as `EmailAlreadyExists`. So exactly one of the
/// two accounts exists afterwards.
pub proof fn law_racing_creates(
    table: TableView,
    first: CreateUserView,
    first_hash: Seq<char>,
    first_now: int,
    second: CreateUserView,
    second_hash: Seq<char>,
    second_now: int,
)
    requires
        table.wf(),
        !table.holds(first.ws_id, first.email),
        table.next_id < i64::MAX,
        second.ws_id == first.ws_id,
        second.email == first.email,
    ensures
        ({
            let first_plan = plan_insert_spec(first, first_hash, false);
            let second_plan = plan_insert_spec(second, second_hash, false);
            let (middle, first_outcome) = table.insert(first_plan->Ok_0, first_now);
            let (last, second_outcome) = middle.insert(second_plan->Ok_0, second_now);
            &&& first_plan is Ok
            &&& second_plan is Ok
            &&& from_insert_spec(first_outcome, first.email) is Ok
            &&& from_insert_spec(second_outcome, second.email) == Err::<UserView, AppErrorView>(
                AppErrorView::EmailAlreadyExists(second.email),
            )
            &&& last == middle
            &&& last.rows.len() == table.rows.len() + 1
        }),
{
    let middle = table.insert(first.to_insert(first_hash), first_now).0;
    law_each_row_is_found(middle, table.rows.len() as int);
}

} // verus!

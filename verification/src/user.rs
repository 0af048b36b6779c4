//! The account record in its public and its stored shape, and the requests
//! that create an account or sign in to one.

use vstd::prelude::*;

verus! {

/// A request to create an account. The password is plain text and is never
/// stored: only a hash derived from it is.
#[derive(Debug, Clone, PartialEq, Eq)]
pub struct CreateUser {
    pub ws_id: i32,
    pub full_name: String,
    pub email: String,
    pub workspace: String,
    pub password: String,
}

/// A request to sign in to the account with `email` in workspace `ws_id`.
#[derive(Debug, Clone, PartialEq, Eq)]
pub struct SignInUser {
    pub ws_id: i32,
    pub email: String,
    pub password: String,
}

/// An account as callers see it: the stored row without its password hash.
#[derive(Debug, Clone, PartialEq, Eq)]
pub struct User {
    pub id: i64,
    pub ws_id: i32,
    pub fullname: String,
    pub email: String,
    /// Microseconds since the Unix epoch, as the store recorded them.
    pub created_at: i64,
}

/// An account as the store holds it. Only the sign-in check reads
/// `password_hash`; no operation hands a row to its caller.
#[derive(Debug, Clone, PartialEq, Eq)]
pub struct UserRow {
    pub id: i64,
    pub ws_id: i32,
    pub fullname: String,
    pub email: String,
    pub password_hash: String,
    pub created_at: i64,
}

/// The values of a row that is about to be inserted: everything but what the
/// store assigns (`id` and `created_at`).
#[derive(Debug, Clone, PartialEq, Eq)]
pub struct NewUser {
    pub ws_id: i32,
    pub email: String,
    pub fullname: String,
    pub password_hash: String,
}

/// A `CreateUser` with its texts as sequences of characters.
#[verifier::ext_equal]
pub struct CreateUserView {
    pub ws_id: int,
    pub full_name: Seq<char>,
    pub email: Seq<char>,
    pub workspace: Seq<char>,
    pub password: Seq<char>,
}

/// A `SignInUser` with its texts as sequences of characters.
#[verifier::ext_equal]
pub struct SignInUserView {
    pub ws_id: int,
    pub email: Seq<char>,
    pub password: Seq<char>,
}

/// A `User` as a mathematical value.
#[verifier::ext_equal]
pub struct UserView {
    pub id: int,
    pub ws_id: int,
    pub fullname: Seq<char>,
    pub email: Seq<char>,
    pub created_at: int,
}

/// A `UserRow` as a mathematical value.
#[verifier::ext_equal]
pub struct UserRowView {
    pub id: int,
    pub ws_id: int,
    pub fullname: Seq<char>,
    pub email: Seq<char>,
    pub password_hash: Seq<char>,
    pub created_at: int,
}

/// A `NewUser` as a mathematical value.
#[verifier::ext_equal]
pub struct NewUserView {
    pub ws_id: int,
    pub email: Seq<char>,
    pub fullname: Seq<char>,
    pub password_hash: Seq<char>,
}

impl View for CreateUser {
    type V = CreateUserView;

    open spec fn view(&self) -> CreateUserView {
        CreateUserView {
            ws_id: self.ws_id as int,
            full_name: self.full_name@,
            email: self.email@,
            workspace: self.workspace@,
            password: self.password@,
        }
    }
}

impl View for SignInUser {
    type V = SignInUserView;

    open spec fn view(&self) -> SignInUserView {
        SignInUserView { ws_id: self.ws_id as int, email: self.email@, password: self.password@ }
    }
}

impl View for User {
    type V = UserView;

    open spec fn view(&self) -> UserView {
        UserView {
            id: self.id as int,
            ws_id: self.ws_id as int,
            fullname: self.fullname@,
            email: self.email@,
            created_at: self.created_at as int,
        }
    }
}

impl View for UserRow {
    type V = UserRowView;

    open spec fn view(&self) -> UserRowView {
        UserRowView {
            id: self.id as int,
            ws_id: self.ws_id as int,
            fullname: self.fullname@,
            email: self.email@,
            password_hash: self.password_hash@,
            created_at: self.created_at as int,
        }
    }
}

impl View for NewUser {
    type V = NewUserView;

    open spec fn view(&self) -> NewUserView {
        NewUserView {
            ws_id: self.ws_id as int,
            email: self.email@,
            fullname: self.fullname@,
            password_hash: self.password_hash@,
        }
    }
}

impl CreateUserView {
    /// The row values that this request asks to insert, once its password has
    /// been hashed to `password_hash`. The workspace's display label and the
    /// plain password are left behind.
    pub open spec fn to_insert(self, password_hash: Seq<char>) -> NewUserView {
        NewUserView {
            ws_id: self.ws_id,
            email: self.email,
            fullname: self.full_name,
            password_hash,
        }
    }
}

impl NewUserView {
    /// The row that the store makes of these values under the `id` and the
    /// time `created_at` that it assigns.
    pub open spec fn row(self, id: int, created_at: int) -> UserRowView {
        UserRowView {
            id,
            ws_id: self.ws_id,
            fullname: self.fullname,
            email: self.email,
            password_hash: self.password_hash,
            created_at,
        }
    }
}

impl UserRowView {
    /// The row as callers may see it: every field but the password hash.
    pub open spec fn public(self) -> UserView {
        UserView {
            id: self.id,
            ws_id: self.ws_id,
            fullname: self.fullname,
            email: self.email,
            created_at: self.created_at,
        }
    }

    /// Whether this is the row of `email` in workspace `ws_id`.
    pub open spec fn keyed(self, ws_id: int, email: Seq<char>) -> bool {
        self.ws_id == ws_id && self.email == email
    }
}

impl UserRow {
    /// The public record of this row, without the password hash.
    pub fn public(&self) -> (user: User)
        ensures
            user@ == self@.public(),
    {
        User {
            id: self.id,
            ws_id: self.ws_id,
            fullname: self.fullname.clone(),
            email: self.email.clone(),
            created_at: self.created_at,
        }
    }

    /// A second copy of this row, field for field.
    pub fn duplicate(&self) -> (row: UserRow)
        ensures
            row@ == self@,
    {
        UserRow {
            id: self.id,
            ws_id: self.ws_id,
            fullname: self.fullname.clone(),
            email: self.email.clone(),
            password_hash: self.password_hash.clone(),
            created_at: self.created_at,
        }
    }
}

/// The view of an optional value.
pub open spec fn option_view<T: View>(value: Option<T>) -> Option<T::V> {
    match value {
        Some(inner) => Some(inner@),
        None => None,
    }
}

/// The view of a result, on both sides.
pub open spec fn result_view<T: View, E: View>(value: Result<T, E>) -> Result<T::V, E::V> {
    match value {
        Ok(inner) => Ok(inner@),
        Err(cause) => Err(cause@),
    }
}

} // verus!

//! Failures that the account operations report.

use vstd::prelude::*;
use vstd::string::*;

verus! {

/// The failure that `argon2` reports when hashing or parsing goes wrong. Its
/// variants are not read here; the value is carried to the caller as it came.
#[verifier::external_type_specification]
#[verifier::external_body]
pub struct ExPasswordHashError(argon2::password_hash::Error);

/// A failure of the operating system's input or output, carried as it came.
#[verifier::external_type_specification]
#[verifier::external_body]
pub struct ExIoError(std::io::Error);

/// What a command-line tool can fail with.
#[derive(Debug)]
pub enum MyError {
    IoError(std::io::Error),
    InvalidArgument(String),
    Unknown,
}

impl MyError {
    /// The words that open the message of each variant.
    pub open spec fn prefix(self) -> Seq<char> {
        match self {
            MyError::IoError(_) => "An IO error occurred: "@,
            MyError::InvalidArgument(_) => "Invalid argument: "@,
            MyError::Unknown => "Unknown error occurred"@,
        }
    }

    /// The message for a reader: the variant's opening words, then its detail.
    /// For an input or output failure the detail is what the failure prints
    /// of itself.
    pub fn message(&self) -> (text: String)
        ensures
            self.prefix().is_prefix_of(text@),
            match *self {
                MyError::IoError(cause) => exists|detail: String|
                    to_string_from_display_ensures::<std::io::Error>(&cause, detail) && text@
                        == self.prefix() + detail@,
                MyError::InvalidArgument(detail) => text@ == self.prefix() + detail@,
                MyError::Unknown => text@ == self.prefix(),
            },
    {
        match self {
            MyError::IoError(cause) => {
                let detail = cause.to_string();
                String::from_str("An IO error occurred: ").concat(detail.as_str())
            },
            MyError::InvalidArgument(detail) => {
                String::from_str("Invalid argument: ").concat(detail.as_str())
            },
            MyError::Unknown => String::from_str("Unknown error occurred"),
        }
    }
}

/// What an account operation can fail with.
#[derive(Debug, PartialEq, Eq)]
pub enum AppError {
    /// An account with this address already exists in the workspace.
    EmailAlreadyExists(String),
    /// The relational store could not carry out a query; holds its message.
    SqlxError(String),
    /// Hashing failed, or a stored hash could not be parsed.
    PasswordHashError(argon2::password_hash::Error),
    /// A header value could not be built; holds the message.
    HttpHeaderError(String),
}

/// An `AppError` with its texts as sequences of characters.
#[verifier::ext_equal]
pub enum AppErrorView {
    EmailAlreadyExists(Seq<char>),
    SqlxError(Seq<char>),
    PasswordHashError(argon2::password_hash::Error),
    HttpHeaderError(Seq<char>),
}

impl View for AppError {
    type V = AppErrorView;

    open spec fn view(&self) -> AppErrorView {
        match *self {
            AppError::EmailAlreadyExists(email) => AppErrorView::EmailAlreadyExists(email@),
            AppError::SqlxError(text) => AppErrorView::SqlxError(text@),
            AppError::PasswordHashError(cause) => AppErrorView::PasswordHashError(cause),
            AppError::HttpHeaderError(text) => AppErrorView::HttpHeaderError(text@),
        }
    }
}

impl AppError {
    /// The words that open the message of each variant.
    pub open spec fn prefix(self) -> Seq<char> {
        match self {
            AppError::EmailAlreadyExists(_) => "email already exists: "@,
            AppError::SqlxError(_) => "sql error: "@,
            AppError::PasswordHashError(_) => "password hash error: "@,
            AppError::HttpHeaderError(_) => "http header parse error: "@,
        }
    }

    /// The message for a reader: the variant's opening words, then its detail.
    /// For a hashing failure the detail is what the failure prints of itself.
    pub fn message(&self) -> (text: String)
        ensures
            self.prefix().is_prefix_of(text@),
            match *self {
                AppError::EmailAlreadyExists(email) => text@ == self.prefix() + email@,
                AppError::SqlxError(detail) => text@ == self.prefix() + detail@,
                AppError::PasswordHashError(cause) => exists|detail: String|
                    to_string_from_display_ensures::<argon2::password_hash::Error>(
                        &cause,
                        detail,
                    ) && text@ == self.prefix() + detail@,
                AppError::HttpHeaderError(detail) => text@ == self.prefix() + detail@,
            },
    {
        match self {
            AppError::EmailAlreadyExists(email) => {
                String::from_str("email already exists: ").concat(email.as_str())
            },
            AppError::SqlxError(detail) => String::from_str("sql error: ").concat(detail.as_str()),
            AppError::PasswordHashError(cause) => {
                let detail = cause.to_string();
                String::from_str("password hash error: ").concat(detail.as_str())
            },
            AppError::HttpHeaderError(detail) => {
                String::from_str("http header parse error: ").concat(detail.as_str())
            },
        }
    }
}

} // verus!

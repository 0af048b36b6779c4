//! Account creation, workspace-scoped sign-in and account removal for a chat
//! service, with the rules of each operation stated as contracts; beside
//! them, the small types and helpers of the service's command-line tools.

pub mod error;
pub mod genpass;
pub mod http;
pub mod laws;
pub mod password;
pub mod rows;
pub mod store;
pub mod table;
pub mod user;

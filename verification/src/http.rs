//! The options of the command-line file server and of its client, and how
//! the server answers a request for a file.

use vstd::prelude::*;
use vstd::string::*;

verus! {

/// What the `http` command is asked to do.
#[derive(Debug, PartialEq, Eq)]
pub enum HttpCommand {
    /// Serve the files below a directory.
    Serve(ServeOpts),
    /// Send one request to a server.
    Client(ClientOpts),
}

/// Where the file server listens and what it serves.
#[derive(Debug, PartialEq, Eq)]
pub struct ServeOpts {
    pub port: u16,
    pub path: String,
}

/// One request of the client: where it goes and what it carries.
#[derive(Debug, PartialEq, Eq)]
pub struct ClientOpts {
    pub server: String,
    pub port: u16,
    pub path: String,
    pub method: String,
    pub headers: Vec<String>,
}

/// What reading the file that a request names came to.
#[derive(Debug, PartialEq, Eq)]
pub enum FileRead {
    /// There is no such file.
    Missing,
    /// The file's text.
    Content(String),
    /// The file is there but could not be read; holds the system's message.
    Failed(String),
}

/// The status code and the body that answer a request for a file: 404 with a
/// fixed text where the file is missing, 200 with the file's text, and 500
/// with the system's message where reading failed.
pub fn file_response(read: FileRead) -> (res: (u16, String))
    ensures
        match read {
            FileRead::Missing => res.0 == 404 && res.1@ == "File already exists"@,
            FileRead::Content(content) => res.0 == 200 && res.1@ == content@,
            FileRead::Failed(text) => res.0 == 500 && res.1@ == text@,
        },
{
    match read {
        FileRead::Missing => (404, String::from_str("File already exists")),
        FileRead::Content(content) => (200, content),
        FileRead::Failed(text) => (500, text),
    }
}

} // verus!

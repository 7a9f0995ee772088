//! The error type of the workbench.

use vstd::prelude::*;
use crate::strs::{push_str, string_of};

verus! {

/// What went wrong, with a description.
#[derive(Debug, Clone)]
pub enum Error {
    /// A pseudo-terminal operation failed.
    Pty(String),
    /// An I/O operation failed (its error's text).
    Io(String),
    /// The configuration is unusable.
    Config(String),
    /// A child process failed.
    Subprocess(String),
    /// An internal channel failed, or an agent sent something unreadable.
    Channel(String),
}

/// The text shown for an error: its kind, a colon and its description.
pub open spec fn error_text(e: Error) -> Seq<char> {
    match e {
        Error::Pty(s) => "PTY error: "@ + s@,
        Error::Io(s) => "I/O error: "@ + s@,
        Error::Config(s) => "Config error: "@ + s@,
        Error::Subprocess(s) => "Subprocess error: "@ + s@,
        Error::Channel(s) => "Channel error: "@ + s@,
    }
}

impl Error {
    /// The text shown for this error (see `error_text`).
    pub fn message(&self) -> (r: String)
        ensures
            r@ == error_text(*self),
    {
        let (head, body) = match self {
            Error::Pty(s) => ("PTY error: ", s),
            Error::Io(s) => ("I/O error: ", s),
            Error::Config(s) => ("Config error: ", s),
            Error::Subprocess(s) => ("Subprocess error: ", s),
            Error::Channel(s) => ("Channel error: ", s),
        };
        let mut r = string_of(head);
        push_str(&mut r, body.as_str());
        r
    }
}

} // verus!

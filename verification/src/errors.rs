//! Error values shared by the library.
//!
//! Failures coming from the terminal, the network client or plain string
//! reasons are all carried as messages, so that contracts can speak about
//! them as sequences of characters.

use vstd::prelude::*;

verus! {

/// A failure surfaced to the interactive front end.  Each variant carries
/// the underlying cause rendered as a message.
#[derive(Debug)]
pub enum TerminalError {
    /// Clearing the terminal failed.
    ClearError(String),
    /// Reading from or writing to the terminal, or another I/O step, failed.
    CommandIOError(String),
    /// An HTTP request failed.
    ReqwestError(String),
}

impl TerminalError {
    /// Wraps a plain message as an I/O-flavoured error.
    pub fn new(msg: &str) -> (r: TerminalError)
        ensures
            r matches TerminalError::CommandIOError(m) && m@ == msg@,
    {
        TerminalError::CommandIOError(String::from_str(msg))
    }

    /// The message carried by the error.
    pub fn message(&self) -> (r: String)
        ensures
            r@ == self.spec_message(),
    {
        match self {
            TerminalError::ClearError(m) => m.clone(),
            TerminalError::CommandIOError(m) => m.clone(),
            TerminalError::ReqwestError(m) => m.clone(),
        }
    }

    /// The message carried by the error, as a sequence of characters.
    pub open spec fn spec_message(&self) -> Seq<char> {
        match self {
            TerminalError::ClearError(m) => m@,
            TerminalError::CommandIOError(m) => m@,
            TerminalError::ReqwestError(m) => m@,
        }
    }
}

/// An I/O failure rendered as its message.
#[derive(Debug)]
pub struct MyIOError(pub String);

/// A plain string used as an error reason.
#[derive(Debug)]
pub struct MyStrError(pub String);

impl From<MyIOError> for TerminalError {
    fn from(err: MyIOError) -> (r: TerminalError) {
        TerminalError::CommandIOError(err.0)
    }
}

impl vstd::std_specs::convert::FromSpecImpl<MyIOError> for TerminalError {
    open spec fn obeys_from_spec() -> bool {
        true
    }

    open spec fn from_spec(err: MyIOError) -> TerminalError {
        TerminalError::CommandIOError(err.0)
    }
}

impl From<MyStrError> for TerminalError {
    fn from(err: MyStrError) -> (r: TerminalError) {
        TerminalError::CommandIOError(err.0)
    }
}

impl vstd::std_specs::convert::FromSpecImpl<MyStrError> for TerminalError {
    open spec fn obeys_from_spec() -> bool {
        true
    }

    open spec fn from_spec(err: MyStrError) -> TerminalError {
        TerminalError::CommandIOError(err.0)
    }
}

} // verus!

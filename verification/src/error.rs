//! The error taxonomy: every failure is a message, a kind and, where a lower
//! layer reported it, the text of that cause.

use vstd::prelude::*;
use vstd::string::*;

verus! {

/// The closed set of failure kinds that the client reports.
#[derive(Debug, Clone, Copy, PartialEq, Eq, Structural)]
pub enum ErrorType {
    /// The host or port given at construction cannot form a URL.
    InvalidHost,
    /// The caller's input is malformed: certificate or key material, an absent
    /// handle, bytes that are not text.
    InvalidArgument,
    /// The request could not be sent.
    ConnectionError,
    /// The server's answer cannot be used: an unsuccessful status, a body that
    /// does not decode, a wrong number of keys, a value too long for its buffer.
    InvalidResponse,
}

/// A failure: what happened, of which kind, and what the layer below said.
#[derive(Debug)]
pub struct Error {
    pub msg: String,
    pub kind: ErrorType,
    /// The lower-level cause as that layer rendered it.
    pub source: Option<String>,
}

/// The words that introduce the cause in a rendered error.
pub open spec fn caused_by() -> Seq<char> {
    "\n\nCaused by: "@
}

/// The rendering of an error: its message, followed by the cause if there is one.
pub open spec fn rendered(msg: Seq<char>, source: Option<Seq<char>>) -> Seq<char> {
    match source {
        Some(cause) => msg + caused_by() + cause,
        None => msg,
    }
}

impl Error {
    pub open spec fn source_view(&self) -> Option<Seq<char>> {
        match self.source {
            Some(cause) => Some(cause@),
            None => None,
        }
    }

    /// What `to_text` returns.
    pub open spec fn text(&self) -> Seq<char> {
        rendered(self.msg@, self.source_view())
    }

    pub fn new(msg: String, kind: ErrorType, source: Option<String>) -> (e: Error)
        ensures
            e.msg == msg,
            e.kind == kind,
            e.source == source,
    {
        Error { msg, kind, source }
    }

    /// The error as one text for a person to read.
    pub fn to_text(&self) -> (s: String)
        ensures
            s@ == self.text(),
    {
        let mut s = self.msg.clone();
        match &self.source {
            Some(cause) => {
                s.append("\n\nCaused by: ");
                s.append(cause.as_str());
            },
            None => {},
        }
        s
    }
}

} // verus!

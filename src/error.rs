//! The failures that any operation of the library can report.

use vstd::prelude::*;

verus! {

/// A unified error type for anything returned by a method in this crate.
#[derive(Debug, Clone)]
pub enum Error {
    /// The peer broke the request/response correlation (missing or foreign id).
    Protocol(String),
    /// The bytes received were not a valid response, for reasons of the data itself.
    Serialize(String),
    /// The transport failed: connecting, reading, writing, or the peer hung up.
    Socket(String),
    /// No response arrived before the connection's deadline.
    Timeout,
    /// The daemon ran the command and reported an error of its own.
    Command { cmd: String, params: String, error: String },
    /// No control socket exists at the given path.
    SocketNotFound(String),
    /// The daemon's pid file is missing or empty.
    OvsNotRunning,
    /// A built-in command answered with text of an unexpected shape.
    OvsInvalidResponse { cmd: String, response: String, error: String },
}

/// What an [`Error`] says, with its texts as character sequences.
pub enum ErrorView {
    Protocol(Seq<char>),
    Serialize(Seq<char>),
    Socket(Seq<char>),
    Timeout,
    Command { cmd: Seq<char>, params: Seq<char>, error: Seq<char> },
    SocketNotFound(Seq<char>),
    OvsNotRunning,
    OvsInvalidResponse { cmd: Seq<char>, response: Seq<char>, error: Seq<char> },
}

impl View for Error {
    type V = ErrorView;

    open spec fn view(&self) -> ErrorView {
        match self {
            Error::Protocol(s) => ErrorView::Protocol(s@),
            Error::Serialize(s) => ErrorView::Serialize(s@),
            Error::Socket(s) => ErrorView::Socket(s@),
            Error::Timeout => ErrorView::Timeout,
            Error::Command { cmd, params, error } => ErrorView::Command {
                cmd: cmd@,
                params: params@,
                error: error@,
            },
            Error::SocketNotFound(s) => ErrorView::SocketNotFound(s@),
            Error::OvsNotRunning => ErrorView::OvsNotRunning,
            Error::OvsInvalidResponse { cmd, response, error } => ErrorView::OvsInvalidResponse {
                cmd: cmd@,
                response: response@,
                error: error@,
            },
        }
    }
}

/// A result with its error seen through [`ErrorView`].
pub open spec fn err_view<T>(r: Result<T, Error>) -> Result<T, ErrorView> {
    match r {
        Ok(v) => Ok(v),
        Err(e) => Err(e@),
    }
}

} // verus!

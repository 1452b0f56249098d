//! The kinds of failure that operations report.
use vstd::prelude::*;

verus! {

/// Why an operation failed.
#[derive(Debug, Clone, Copy, PartialEq, Eq)]
pub enum Error {
    /// Reading or writing the raw stream failed.
    Transport,
    /// A packet was malformed or of an unsupported kind.
    Codec,
    /// The remote side speaks no compatible protocol version, or the
    /// capability negotiation failed.
    Handshake,
    /// The server answered the request with an error status.
    Remote(u32),
    /// The background reader ended abnormally while the caller was waiting.
    BackgroundTaskFailure,
    /// A local limit on open handles or outstanding requests was reached.
    ResourceExhausted,
}

impl Error {
    /// Whether the same operation may succeed if issued again on the same
    /// session: only a server's error answer leaves the session usable.
    pub fn is_retryable(&self) -> (r: bool)
        ensures
            r == (*self is Remote),
    {
        match self {
            Error::Remote(_) => true,
            _ => false,
        }
    }
}

} // verus!

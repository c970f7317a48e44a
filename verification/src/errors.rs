//! The typed error taxonomy of the execution core: exactly two kinds of
//! failure, surfaced immediately and never retried.
use vstd::prelude::*;

verus! {

/// A failed execution. Either the remote endpoint responded with a status
/// outside the success range, or something else went wrong.
#[derive(Debug, Clone, PartialEq, Eq)]
pub enum ClientError {
    /// The remote endpoint responded, but with a status outside the success
    /// range. `content` carries the body as text only when it decodes as
    /// UTF-8; its absence is not itself an error condition.
    ServerResponseError { code: u16, content: Option<String> },
    /// Any other failure — a transport failure, a header-value formatting
    /// failure, or whatever an implementer consolidates here — wrapping a
    /// description of the underlying cause.
    GenericError { source: String },
}

} // verus!

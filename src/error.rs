//! The ways a rewrite can fail.
use vstd::prelude::*;

verus! {

/// The kind of a failed rewrite.
#[derive(Clone, Copy, Debug, PartialEq, Eq, Structural)]
pub enum ErrorKind {
    /// The credential is missing, blank or implausibly short; nothing was sent.
    ConfigError,
    /// The outbound call did not complete.
    UpstreamUnreachable,
    /// The upstream answered with a status outside 200..=299.
    UpstreamRejected,
    /// The upstream answered with success, but not with the expected document.
    MalformedUpstreamResponse,
}

/// A failed rewrite: its kind and the message handed to the caller.
#[derive(Debug)]
pub struct RewriteError {
    pub kind: ErrorKind,
    pub message: String,
}

impl View for RewriteError {
    type V = (ErrorKind, Seq<char>);

    open spec fn view(&self) -> (ErrorKind, Seq<char>) {
        (self.kind, self.message@)
    }
}

impl RewriteError {
    pub fn new(kind: ErrorKind, message: String) -> (r: RewriteError)
        ensures
            r@ == (kind, message@),
    {
        RewriteError { kind, message }
    }
}

} // verus!

//! The error taxonomy of the bot, and its two-bucket severity policy.
//!
//! Every failure raised inside one loop iteration is classified at the loop
//! boundary into exactly two kinds: fatal (cursor-store I/O failures, which
//! terminate the process) and retryable (everything else, which triggers a
//! fixed backoff and another iteration). Each variant carries a detail string
//! for the operator's log.

use vstd::prelude::*;

verus! {

/// Errors that happen after the bot's initial setup.
pub enum Error {
    /// A transport-level failure talking to the chat backend or to the
    /// verification targets (DNS, TLS, connection reset, timeout).
    Network(String),
    /// A failure reading or writing the cursor file.
    Io(String),
    /// A well-formed transport response that fails schema validation, or a
    /// non-success status code.
    Json(String),
    /// A request URL that does not parse.
    UrlParse(String),
}

impl Error {
    /// True exactly on the errors that must terminate the sync loop: cursor
    /// store I/O failures. Everything else is retryable.
    pub open spec fn spec_is_fatal(&self) -> bool {
        self is Io
    }

    /// Classify this error under the loop's two-bucket policy.
    pub fn is_fatal(&self) -> (r: bool)
        ensures
            r == self.spec_is_fatal(),
    {
        match self {
            Error::Io(_) => true,
            _ => false,
        }
    }

    /// The detail string the error was constructed with.
    pub fn detail(&self) -> (r: &String)
        ensures
            r@ == self.spec_detail(),
    {
        match self {
            Error::Network(s) => s,
            Error::Io(s) => s,
            Error::Json(s) => s,
            Error::UrlParse(s) => s,
        }
    }

    /// The detail string, as a sequence of characters.
    pub open spec fn spec_detail(&self) -> Seq<char> {
        match self {
            Error::Network(s) => s@,
            Error::Io(s) => s@,
            Error::Json(s) => s@,
            Error::UrlParse(s) => s@,
        }
    }
}

} // verus!

//! The failure taxonomy of a run: a malformed input path, a download the
//! remote side refused, or a local file-system failure. Every failure aborts
//! the whole run; each carries the text shown to the user.

use vstd::prelude::*;
use vstd::string::StringExecFns;

verus! {

/// The message shown when the input path cannot be split into owner,
/// repository and remainder.
pub open spec fn invalid_path_message() -> Seq<char> {
    "invalid path"@
}

/// The message carried by a failed download: the remote locator followed by
/// the diagnostic text the remote side returned.
pub open spec fn fetch_failed_message(locator: Seq<char>, body: Seq<char>) -> Seq<char> {
    "failed to fetch "@ + locator + ": "@ + body
}

/// Everything that can go wrong in a run.
pub enum PickError {
    /// The input path has too few `/`-separated parts, or an empty one.
    InvalidPath,
    /// The remote side answered with a non-success status; `body` is its
    /// diagnostic text.
    FetchFailed { locator: String, body: String },
    /// Creating the destination directory or writing the file failed;
    /// `detail` is the system's description.
    IOFailure { detail: String },
}

/// The one-line description of an error, as printed to the error stream.
pub open spec fn error_message_of(e: PickError) -> Seq<char> {
    match e {
        PickError::InvalidPath => invalid_path_message(),
        PickError::FetchFailed { locator, body } => fetch_failed_message(locator@, body@),
        PickError::IOFailure { detail } => detail@,
    }
}

impl PickError {
    /// Render the description of this error.
    pub fn describe(&self) -> (s: String)
        ensures
            s@ == error_message_of(*self),
    {
        match self {
            PickError::InvalidPath => String::from_str("invalid path"),
            PickError::FetchFailed { locator, body } => {
                let mut s = String::from_str("failed to fetch ");
                s.append(locator.as_str());
                s.append(": ");
                s.append(body.as_str());
                s
            },
            PickError::IOFailure { detail } => detail.clone(),
        }
    }
}

} // verus!

//! The ways an operation of the library can fail.

use vstd::prelude::*;

verus! {

/// Why an operation did not go through.
#[derive(Clone, Copy, Debug, PartialEq, Eq, Structural)]
pub enum RacerError {
    /// A directory, a record or an identifier is missing.
    NotFound,
    /// The upstream document could not be fetched; the cached copy stands in.
    UpstreamFetchFailed,
    /// An entry carries no publish date, or one that cannot be read.
    MalformedTimestamp,
    /// A file could not be read or written.
    IOFailure,
    /// A pace that is not positive, a start episode out of range, a pause of a
    /// paused feed or a resume of a running one.
    InvalidParameter,
    /// An instant left the range the library works on.
    OutOfRange,
}

/// The error of an outcome, `None` for a success.
pub open spec fn failure<T>(outcome: Result<T, RacerError>) -> Option<RacerError> {
    match outcome {
        Ok(_) => None,
        Err(e) => Some(e),
    }
}

} // verus!

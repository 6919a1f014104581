//! The error taxonomy of the runtime.
//!
//! Every fallible operation of the library reports one of these kinds; the
//! contracts of the operations say exactly which kind comes on which input.

use vstd::prelude::*;

verus! {

/// An error of the runtime, as a kind plus a human-readable detail.
#[derive(Debug, Clone)]
pub enum BoxliteError {
    /// A box, snapshot, image, archive, or cache entry is absent.
    NotFound(String),
    /// A name collision on create or snapshot.
    AlreadyExists(String),
    /// The operation is forbidden in the current status.
    InvalidState(String),
    /// Malformed user input, caught at sanitize time.
    InvalidArgument(String),
    /// An I/O, layout, ext4, or qcow2 failure.
    Storage(String),
    /// The VMM failed to create or run an instance.
    Engine(String),
    /// An OCI pull or extract failure.
    Image(String),
    /// A bounded wait expired.
    Timeout(String),
    /// A preflight, environment, or capability failure.
    Config(String),
    /// An invariant violation inside the runtime.
    Internal(String),
    /// The box is stopped and the operation needs it running.
    Stopped(String),
}

/// The detail text carried by an error.
pub open spec fn spec_error_message(e: &BoxliteError) -> Seq<char> {
    match e {
        BoxliteError::NotFound(m) => m@,
        BoxliteError::AlreadyExists(m) => m@,
        BoxliteError::InvalidState(m) => m@,
        BoxliteError::InvalidArgument(m) => m@,
        BoxliteError::Storage(m) => m@,
        BoxliteError::Engine(m) => m@,
        BoxliteError::Image(m) => m@,
        BoxliteError::Timeout(m) => m@,
        BoxliteError::Config(m) => m@,
        BoxliteError::Internal(m) => m@,
        BoxliteError::Stopped(m) => m@,
    }
}

impl BoxliteError {
    /// The detail text of this error.
    pub fn message(&self) -> (r: &String)
        ensures
            r@ == spec_error_message(self),
    {
        match self {
            BoxliteError::NotFound(m) => m,
            BoxliteError::AlreadyExists(m) => m,
            BoxliteError::InvalidState(m) => m,
            BoxliteError::InvalidArgument(m) => m,
            BoxliteError::Storage(m) => m,
            BoxliteError::Engine(m) => m,
            BoxliteError::Image(m) => m,
            BoxliteError::Timeout(m) => m,
            BoxliteError::Config(m) => m,
            BoxliteError::Internal(m) => m,
            BoxliteError::Stopped(m) => m,
        }
    }
}

/// The result type used throughout the library.
pub type BoxliteResult<T> = Result<T, BoxliteError>;

} // verus!

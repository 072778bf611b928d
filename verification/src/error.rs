//! The ways in which a request, or startup, can fail.

use vstd::prelude::*;

verus! {

/// Why an operation was refused.
#[derive(Clone, Copy, Debug, PartialEq, Eq, Structural)]
pub enum FsError {
    /// An unknown inode id, or a name that resolves to nothing.
    NotFound,
    /// A negative logical offset.
    InvalidArgument,
    /// The backing file could not be read, for a reason other than its end.
    IoError,
    /// The backing file or its metadata cannot be served at all.
    StartupFailure,
}

} // verus!

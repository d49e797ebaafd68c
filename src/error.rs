use vstd::prelude::*;

verus! {

/// The failures that every operation of the backend reports, one variant per category.
#[derive(Debug, PartialEq, Eq)]
pub enum BaguaNetError {
    /// A device index out of range, or otherwise malformed input.
    InvalidArgument,
    /// An identifier that names no live communicator of the expected kind.
    NotFound,
    /// A failure of the operating system, with its cause.
    IOError(String),
    /// An address family other than IPv4 or IPv6.
    Unsupported,
}

} // verus!

use vstd::prelude::*;

verus! {

/// Errors reported by this library.
#[derive(Debug)]
pub enum Error {
    /// A message could not be encoded into, or decoded from, a buffer.
    Codec(String),
    /// A queue between a caller and an engine thread was closed.
    Channel(String),
    /// The engine refused an operation.
    Internal(String),
}

impl Error {
    pub open spec fn is_codec(&self) -> bool {
        self is Codec
    }

    pub open spec fn is_channel(&self) -> bool {
        self is Channel
    }

    pub open spec fn is_internal(&self) -> bool {
        self is Internal
    }

    /// The text carried by the error.
    pub open spec fn text(&self) -> Seq<char> {
        match self {
            Error::Codec(s) => s@,
            Error::Channel(s) => s@,
            Error::Internal(s) => s@,
        }
    }
}

/// Operation not permitted.
pub const EPERM: i32 = 1;

/// Out of memory.
pub const ENOMEM: i32 = 12;

/// Device or resource busy.
pub const EBUSY: i32 = 16;

/// Entry already exists.
pub const EEXIST: i32 = 17;

/// Invalid argument.
pub const EINVAL: i32 = 22;

/// Operation already in progress.
pub const EALREADY: i32 = 114;

} // verus!

//! Errors: each failure of an operation becomes exactly one [`Error`].
use crate::marshal::{decode_c_bytes, decoded, until_nul};
use vstd::prelude::*;
use vstd::string::*;

verus! {

/// Where a failure came from.
#[derive(Clone, Copy, Debug, PartialEq, Eq, Structural)]
pub enum ErrorKind {
    /// A lookup found no matching interface.
    NotFound,
    /// A string argument holds a NUL byte, which the foreign side cannot
    /// represent; no foreign call was made.
    InvalidArgument,
    /// The foreign library reported that a query or a state change failed.
    OperationFailed,
    /// The handle was already released by `free`; no foreign call was made.
    InvalidHandle,
}

/// The foreign library's last-error state, copied out right after the
/// failing call: numeric code, origin domain and the message bytes (without
/// their terminator).
#[derive(Debug)]
pub struct LastError {
    pub code: i32,
    pub domain: i32,
    pub message: Vec<u8>,
}

/// A failed operation.
#[derive(Debug)]
pub struct Error {
    pub kind: ErrorKind,
    pub code: i32,
    pub domain: i32,
    pub message: String,
}

impl Error {
    /// `self` is the error of kind `kind` built from the last-error state
    /// `last`; with no last error recorded, code and domain are 0 and the
    /// message is empty.
    pub open spec fn captures(self, kind: ErrorKind, last: Option<LastError>) -> bool {
        &&& self.kind == kind
        &&& match last {
            Some(l) => {
                &&& self.code == l.code
                &&& self.domain == l.domain
                &&& self.message@ == decoded(until_nul(l.message@))
            },
            None => {
                &&& self.code == 0
                &&& self.domain == 0
                &&& self.message@ == Seq::<char>::empty()
            },
        }
    }

    /// Builds the error of kind `kind` from the foreign library's last-error
    /// state.
    pub fn from_last(kind: ErrorKind, last: Option<LastError>) -> (r: Error)
        ensures
            r.captures(kind, last),
    {
        match last {
            Some(l) => Error {
                kind,
                code: l.code,
                domain: l.domain,
                message: decode_c_bytes(l.message.as_slice()),
            },
            None => Error { kind, code: 0, domain: 0, message: String::new() },
        }
    }

    /// An error raised by this layer itself, before any foreign call.
    pub open spec fn is_local(self, kind: ErrorKind) -> bool {
        &&& self.kind == kind
        &&& self.code == 0
        &&& self.domain == 0
    }

    /// The error for a string argument that holds a NUL byte.
    pub fn invalid_argument() -> (r: Error)
        ensures
            r.is_local(ErrorKind::InvalidArgument),
    {
        Error {
            kind: ErrorKind::InvalidArgument,
            code: 0,
            domain: 0,
            message: String::from_str("string argument contains a NUL byte"),
        }
    }

    /// The error for an operation on a handle that `free` already released.
    pub fn invalid_handle() -> (r: Error)
        ensures
            r.is_local(ErrorKind::InvalidHandle),
    {
        Error {
            kind: ErrorKind::InvalidHandle,
            code: 0,
            domain: 0,
            message: String::from_str("interface handle was already freed"),
        }
    }
}

} // verus!

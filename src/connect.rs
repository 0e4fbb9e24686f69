//! The hypervisor connection, as far as interface handles need it: an opaque
//! capability handed to lookups and returned by `get_connect`.
use vstd::prelude::*;

verus! {

/// A live connection to a hypervisor, held as its non-null foreign handle.
#[derive(Debug)]
pub struct Connect {
    c: usize,
}

impl Connect {
    #[verifier::type_invariant]
    spec fn non_null(&self) -> bool {
        self.c != 0
    }

    /// The foreign handle of this connection.
    pub closed spec fn ptr(&self) -> usize {
        self.c
    }

    /// Wraps a raw connection handle; a null handle wraps to nothing.
    pub fn from_ptr(raw: usize) -> (r: Option<Connect>)
        ensures
            r is None <==> raw == 0,
            r matches Some(c) ==> c.ptr() == raw,
    {
        if raw == 0 {
            None
        } else {
            Some(Connect { c: raw })
        }
    }

    /// The foreign handle, to pass back to foreign calls.
    pub fn as_ptr(&self) -> (r: usize)
        ensures
            r == self.ptr(),
            r != 0,
    {
        proof {
            use_type_invariant(self);
        }
        self.c
    }
}

} // verus!

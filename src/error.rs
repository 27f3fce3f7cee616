use vstd::prelude::*;

verus! {

/// What went wrong in a store operation.
#[derive(Clone, Copy, Debug, PartialEq, Eq, Structural)]
pub enum ErrorKind {
    /// The engine could not open the requested path.
    EngineOpenFailure,
    /// The handle does not name a live instance.
    UnknownHandle,
    /// The engine reported a read, write, delete or scan error.
    EngineIoFailure,
    /// Stored bytes are not valid UTF-8 text.
    DecodeFailure,
    /// Every handle value has already been issued once.
    HandlesExhausted,
}

/// `r` is an error of kind `k`.
pub open spec fn fails_with<V>(r: Result<V, StoreError>, k: ErrorKind) -> bool {
    match r {
        Ok(_) => false,
        Err(e) => e.kind == k,
    }
}

/// A recoverable failure: its kind and a human-readable message.
#[derive(Debug)]
pub struct StoreError {
    pub kind: ErrorKind,
    pub message: String,
}

impl StoreError {
    pub fn new(kind: ErrorKind, message: String) -> (r: StoreError)
        ensures
            r.kind == kind,
            r.message@ == message@,
    {
        StoreError { kind, message }
    }

    pub fn kind(&self) -> (r: ErrorKind)
        ensures
            r == self.kind,
    {
        self.kind
    }

    pub fn message(&self) -> (r: &str)
        ensures
            r@ == self.message@,
    {
        self.message.as_str()
    }
}

} // verus!

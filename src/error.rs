use vstd::prelude::*;

verus! {

/// The class of a failure, as the pool and the cluster workflows report it.
#[derive(Debug, Clone, Copy, PartialEq, Eq, Structural)]
pub enum ErrorKind {
    /// A required input is missing or invalid.
    Configuration,
    /// An authentication token could not be generated.
    Auth,
    /// The pool could not open a connection.
    Connection,
    /// A cluster operation was rejected or timed out.
    ControlPlane,
    /// A statement failed or returned something unexpected.
    Query,
}

/// A failure: its class and a human-readable detail.
#[derive(Debug)]
pub struct DsqlError {
    pub kind: ErrorKind,
    pub detail: String,
}

impl DsqlError {
    pub fn new(kind: ErrorKind, detail: &str) -> (r: DsqlError)
        ensures
            r.kind == kind,
            r.detail@ == detail@,
    {
        DsqlError { kind, detail: detail.to_owned() }
    }

    pub fn message(&self) -> (r: String)
        ensures
            r@ == self.detail@,
    {
        self.detail.clone()
    }
}

} // verus!

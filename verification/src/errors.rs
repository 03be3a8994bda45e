//! Error taxonomy exposed to callers.
//!
//! Caller misuse (an index out of range) is always a recoverable `Result`
//! whose `Err` variant hands the attempted-on object back unchanged, so the
//! caller can retry.  Platform failure is surfaced as an opaque diagnostic
//! and never retried here.

use vstd::prelude::*;

verus! {

/// Session construction failed.
#[derive(Clone, Copy, PartialEq, Eq, Structural, Debug)]
pub struct InitError;

/// Failure of a port information query.
#[derive(Clone, Copy, PartialEq, Eq, Structural, Debug)]
pub enum PortInfoError {
    /// The given port number is not below the current port count.
    PortNumberOutOfRange,
}

/// Why a `connect` call failed.
#[derive(Clone, Copy, PartialEq, Eq, Structural, Debug)]
pub enum ConnectErrorKind {
    /// The given port number is not below the current port count.
    PortNumberOutOfRange,
    /// The backend rejected the connection.
    Other,
}

/// A failed `connect` call: the failure kind together with the recovered
/// state (the unconnected session, and for input also the caller's context),
/// handed back unchanged so the caller can retry.
pub struct ConnectError<T> {
    kind: ConnectErrorKind,
    inner: T,
}

impl<T> ConnectError<T> {
    /// The failure kind carried by this error.
    pub closed spec fn kind_spec(self) -> ConnectErrorKind {
        self.kind
    }

    /// The recovered state carried by this error.
    pub closed spec fn inner_spec(self) -> T {
        self.inner
    }

    pub fn new(kind: ConnectErrorKind, inner: T) -> (r: ConnectError<T>)
        ensures
            r.kind_spec() == kind,
            r.inner_spec() == inner,
    {
        ConnectError { kind, inner }
    }

    pub fn kind(&self) -> (r: ConnectErrorKind)
        ensures
            r == self.kind_spec(),
    {
        self.kind
    }

    /// Recovers the state that the failed call handed back.
    pub fn into_inner(self) -> (r: T)
        ensures
            r == self.inner_spec(),
    {
        self.inner
    }
}

/// Why a `send` call failed.
pub enum SendError {
    /// The backend rejected the write; the payload is its diagnostic.
    Other(String),
}

} // verus!

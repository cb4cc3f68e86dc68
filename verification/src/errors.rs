//! The error taxonomy. A transport failure means the broker never accepted
//! the call and is surfaced immediately; a decode failure means a reply
//! arrived in an unexpected shape. A cancelled outcome is neither: it is a
//! normal, user-driven completion and lives in [`crate::outcome`].

use vstd::prelude::*;

verus! {

/// A reply payload could not be decoded into its capability's typed shape.
#[derive(Debug, Clone, Copy, PartialEq, Eq, Structural)]
pub enum DecodeError {
    /// An enumeration key carried a string tag that no declared variant uses.
    UnknownVariant,
    /// A key the capability's reply shape requires was absent.
    MissingField,
    /// A key was present but held a value of the wrong type.
    UnexpectedType,
}

/// The broker was unreachable or rejected the method call outright. This is
/// distinct from a cancelled or failed outcome, which is a valid completion
/// of the asynchronous flow; a transport error means no request is in
/// flight at all, and it is never retried automatically.
#[derive(Debug, Clone, Copy, PartialEq, Eq, Structural)]
pub enum TransportError {
    /// No connection to the broker could be used for the call.
    Unreachable,
    /// The broker rejected the call's arguments.
    MalformedCall,
    /// The capability's remote interface is not present on the broker.
    InterfaceAbsent,
}

} // verus!

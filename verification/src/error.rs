//! The errors this library reports.
//!
//! All of them are synchronous, local and recoverable: they are returned to
//! the immediate caller and none is treated as fatal.

use vstd::prelude::*;

verus! {

/// What the network-submission collaborator can report when a request is
/// handed to it.  This library does not interpret or retry a failure; it
/// forwards it with its classification intact.
#[derive(Clone, Copy, Debug, PartialEq, Eq, Structural)]
pub enum Failure {
    /// The request never reached a node.
    Transport,
    /// The node rejected the request as invalid before running it.
    Invalid,
    /// The node ran the request and reported a business-level failure.
    Business,
}

/// Every error a caller of this library can see.
#[derive(Clone, Copy, Debug, PartialEq, Eq, Structural)]
pub enum Error {
    /// A text identifier does not match its entity's canonical grammar.
    Parse,
    /// A typed identifier of the wrong entity kind was supplied where a
    /// specific kind was required.
    TypeMismatch,
    /// A builder setter received a value that cannot be converted to the
    /// field's semantic type.
    FieldCoercion,
    /// The submission collaborator reported a failure; it is passed through
    /// unchanged.
    Submission(Failure),
}

} // verus!

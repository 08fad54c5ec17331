//! Client-side request construction for a distributed ledger network.
//!
//! A [`handle::Client`] holds the network configuration for one session:
//! the node the session talks to and the operator that pays for and signs
//! submitted work.  From the handle a caller enters an entity scope — an
//! account, a smart-contract instance, a file or a transaction — by giving
//! an identifier either in its canonical text form or as an already typed
//! value.  Each scope offers exactly the operations that are meaningful for
//! its entity kind, and each operation yields a request builder that is
//! pre-populated with the scope's identifier.  A builder is configured
//! through chainable setters and finished with `execute`, which hands the
//! fully built request to a submission interface and returns its answer.

pub mod builders;
pub mod digits;
pub mod error;
pub mod file_info;
pub mod handle;
pub mod id;
pub mod request;
pub mod scope;
pub mod submit;

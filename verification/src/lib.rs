//! Core engine of a local-package installer: it models the package-management
//! transaction protocol — decoding the loosely-typed signals a transaction
//! object emits, folding them into query results or an install outcome, and
//! deciding when a session has finished or failed — together with the
//! authorization-gate decision that guards privileged installs.
//!
//! All bus I/O (connecting, creating transactions, pumping the signal stream)
//! lives outside this library; callers hand each received signal to the
//! session runner as plain values and perform the actions it asks for.

pub mod auth;
pub mod error;
pub mod package;
pub mod packagekit;
pub mod payload;
pub mod session;
pub mod signal;
pub mod strfmt;

pub use error::TransactionError;

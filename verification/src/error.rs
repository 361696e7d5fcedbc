//! The error taxonomy of an import run.
//!
//! Every failure is terminal for the run: the engine never retries, and a
//! failed run leaves the store exactly as it was before the run started.

use vstd::prelude::*;

verus! {

/// Why an import run failed.
#[derive(Clone, Copy, Debug, PartialEq, Eq, Structural)]
pub enum ImportError {
    /// The configuration table has no row for the requested key.
    ConfigKeyNotFound,
    /// The configuration row exists but its value is null.
    ConfigValueMissing,
    /// The configuration value is present but is not a decimal integer id.
    ConfigValueInvalid,
    /// The source record collections could not be read or were malformed.
    /// Raised by the embedding that reads the source files, never by the
    /// in-memory engine itself.
    SourceReadError,
    /// A natural-key lookup (task summary, resource-type name, resource
    /// description) found no matching row.
    ReferenceNotFound,
    /// The underlying storage failed. Raised by an embedding that talks to
    /// a real database, never by the in-memory engine itself.
    StorageError,
}

} // verus!

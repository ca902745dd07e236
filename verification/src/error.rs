//! The ways in which loading a table and asking it can fail.

use vstd::prelude::*;

verus! {

/// Why a data source gave no table.
#[derive(Debug, Clone, Copy, PartialEq, Eq, Structural)]
pub enum DataError {
    /// The data source could not be obtained or read as a document.
    Unreadable,
    /// The document was read, but some element's data is missing or of the wrong kind.
    Malformed,
}

/// The symbol that was asked for names no element of the table.
#[derive(Debug, Clone, Copy, PartialEq, Eq, Structural)]
pub struct NotFound;

} // verus!

//! Error kinds of the library.
use vstd::prelude::*;

verus! {

/// Why an item's metadata file gave no metadata.
#[derive(Clone, Copy, Debug, PartialEq, Eq, Structural)]
pub enum NfoError {
    /// The item directory holds no metadata file.
    NotFound,
    /// The file could not be opened, or its content does not fit the schema.
    ParseError,
}

/// Why a directory could not be loaded.
#[derive(Clone, Copy, Debug, PartialEq, Eq, Structural)]
pub enum LoadError {
    /// A path that should name a directory names something else.
    NotADirectory,
    /// The path could not be resolved, or another filesystem operation failed.
    Io,
}

} // verus!

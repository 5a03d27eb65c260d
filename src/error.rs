use vstd::prelude::*;

verus! {

/// Every way an operation of the library can fail.
#[derive(Debug, Clone, Copy, PartialEq, Eq, Structural)]
pub enum SearchError {
    /// A regular expression of an engine does not compile.
    Pattern,
    /// No engine has the requested name.
    NotFound,
    /// A removal was asked of a catalog without engines.
    EmptyCatalog,
    /// A position past the end of the catalog.
    IndexOutOfBounds,
    /// The stored catalog could not be read back.
    MalformedConfig,
    /// The catalog file could not be created, opened, written or flushed.
    Io,
}

} // verus!

//! How a configuration file in a given state is turned into a catalog.
use vstd::prelude::*;

verus! {

/// What loading a configuration file takes, by the state the file is in.
#[derive(Debug, Clone, Copy, PartialEq, Eq, Structural)]
pub enum LoadStep {
    /// No file: create an empty one and start from an empty catalog.
    CreateFile,
    /// An empty file, or one whose size cannot be read: start from an empty
    /// catalog and leave the file as it is.
    StartEmpty,
    /// A file with content: read the catalog from it.
    Deserialize,
}

/// The step for a file, from whether it exists and its size in bytes where
/// that could be read.
pub open spec fn load_step_spec(exists: bool, size: Option<u64>) -> LoadStep {
    if !exists {
        LoadStep::CreateFile
    } else {
        match size {
            Some(n) if n > 0 => LoadStep::Deserialize,
            _ => LoadStep::StartEmpty,
        }
    }
}

/// Decides how a configuration file is loaded.
pub fn load_step(exists: bool, size: Option<u64>) -> (r: LoadStep)
    ensures
        r == load_step_spec(exists, size),
        !exists ==> r == LoadStep::CreateFile,
        exists && size == Some(0u64) ==> r == LoadStep::StartEmpty,
        exists && size is None ==> r == LoadStep::StartEmpty,
        exists && size is Some && size->Some_0 > 0 ==> r == LoadStep::Deserialize,
{
    if !exists {
        LoadStep::CreateFile
    } else {
        match size {
            Some(n) => if n > 0 {
                LoadStep::Deserialize
            } else {
                LoadStep::StartEmpty
            },
            None => LoadStep::StartEmpty,
        }
    }
}

/// A missing file is created empty and gives an empty catalog; loading that
/// now existing, empty file again gives an empty catalog too, without reading
/// anything from it.
pub proof fn lemma_fresh_file_loads_empty(size: Option<u64>)
    ensures
        load_step_spec(false, size) == LoadStep::CreateFile,
        load_step_spec(true, Some(0u64)) == LoadStep::StartEmpty,
{
}

} // verus!

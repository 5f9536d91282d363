use vstd::prelude::*;

verus! {

/// Failures of the load-simulation core.
#[derive(Clone, Copy, Debug, PartialEq, Eq, Structural)]
pub enum Error {
    /// The state file could not be opened, created or read.
    Io,
    /// The state document is malformed or could not be encoded.
    Serialization,
    /// The parameters of a behaviour model are invalid.
    ActorConstruction,
    /// An integer does not name any action.
    InvalidOrdinal,
}

} // verus!

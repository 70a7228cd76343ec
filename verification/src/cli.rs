//! The command-line surface of the tool, as plain data: the backend
//! selector and the argument set. Argument parsing itself is left to the
//! caller; the library only consumes these values.

use vstd::prelude::*;

verus! {

/// The target backend to generate code for.
#[derive(Clone, Copy, Debug, PartialEq, Eq, Structural)]
pub enum Backend {
    C,
    JAVA,
}

/// The parsed command-line arguments: which backend to run, the model file
/// to read and the destination directory to write artifacts under.
#[derive(Debug, Clone)]
pub struct CLI {
    pub backend: Backend,
    pub source: String,
    pub destination: String,
}

} // verus!

//! An output artifact: one generated source unit, as a destination-relative
//! path and its full text. The caller writes it to disk unchanged.

use vstd::prelude::*;

verus! {

/// One generated source unit.
#[derive(Debug, Clone)]
pub struct Artifact {
    /// The path of the unit, relative to the destination directory.
    pub name: String,
    /// The complete text of the unit.
    pub contents: String,
}

/// The mathematical view of an [`Artifact`].
pub struct ArtifactV {
    pub name: Seq<char>,
    pub contents: Seq<char>,
}

impl View for Artifact {
    type V = ArtifactV;

    open spec fn view(&self) -> ArtifactV {
        ArtifactV { name: self.name@, contents: self.contents@ }
    }
}

} // verus!

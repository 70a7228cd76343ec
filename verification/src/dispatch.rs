//! Backend dispatch: one uniform contract over every backend. All backends
//! consume the same intermediate representation with the same semantics and
//! differ only in target-language syntax and artifact layout.

use vstd::prelude::*;
use crate::artifact::{Artifact, ArtifactV};
use crate::backend_c;
use crate::backend_java;
use crate::cli::Backend;
use crate::errors::GenError;
use crate::ir::{ModelIR, ModelIRV};

verus! {

/// What generating the selected backend yields: the backend's artifact
/// list, or the structural fault that aborted the run.
pub open spec fn spec_emit(m: ModelIRV, backend: Backend, package: Seq<char>) -> Result<
    Seq<ArtifactV>,
    GenError,
> {
    match backend {
        Backend::C => backend_c::spec_emit_c(m),
        Backend::JAVA => backend_java::spec_emit_java(m, package),
    }
}

/// The view of a generation result.
pub open spec fn result_view(r: Result<Vec<Artifact>, GenError>) -> Result<Seq<ArtifactV>, GenError> {
    match r {
        Ok(v) => Ok(v@.map_values(|a: Artifact| a@)),
        Err(e) => Err(e),
    }
}

/// Runs the selected backend over the validated model. The `package` name is
/// honoured by the Java backend and ignored by the C backend. Generation
/// succeeds exactly when every tree's walk resolves; the first structural
/// fault aborts the whole run and no artifact list is returned.
pub fn emit(model: &ModelIR, backend: &Backend, package: &str) -> (r: Result<Vec<Artifact>, GenError>)
    ensures
        result_view(r) == spec_emit(model@, *backend, package@),
{
    match backend {
        Backend::C => backend_c::emit(model),
        Backend::JAVA => backend_java::emit_java(model, package),
    }
}

} // verus!

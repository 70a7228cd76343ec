//! Turns a validated decision-tree-ensemble regression model into standalone
//! source code (a C or a Java backend) that reproduces the model's inference.
//!
//! The crate decodes a permissive node schema into a typed intermediate
//! representation, validates unsupported configurations, and emits one
//! self-contained routine per tree plus one ensemble aggregation routine.
//! Every artifact is produced as in-memory text; reading the model file and
//! writing the artifacts to disk are left to the caller.

pub mod artifact;
pub mod backend_c;
pub mod backend_java;
pub mod cli;
pub mod dispatch;
pub mod errors;
pub mod ir;
pub mod laws;
pub mod schema;
pub mod text;

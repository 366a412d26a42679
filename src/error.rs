//! The closed set of failures that a run can end in.
use vstd::prelude::*;

verus! {

/// `serde_json::Error`, the error that the encoder of binding values
/// reports. Carried through as an opaque value, never inspected.
#[verifier::external_type_specification]
#[verifier::external_body]
pub struct ExEncodeError(serde_json::Error);

/// `anyhow::Error`, the error that the script engine reports when a script
/// fails to parse or throws. Carried through as an opaque value, never
/// inspected.
#[verifier::external_type_specification]
#[verifier::external_body]
pub struct ExEngineError(anyhow::Error);

/// Errors that can occur when running script code.
///
/// Each variant stands for the stage that failed, never for the text of a
/// message: a binding name that is not a plain identifier, a binding value
/// that the encoder refused, or a script (a declaration or the user code)
/// that the engine could not run.
#[derive(Debug)]
pub enum RunnerError {
    /// A binding name that does not match `[A-Za-z_][A-Za-z0-9_]*`.
    InvalidVariableName(String),
    /// A binding value that could not be encoded.
    SerializationError(serde_json::Error),
    /// A script that failed to parse or threw.
    ExecutionError(anyhow::Error),
}

} // verus!

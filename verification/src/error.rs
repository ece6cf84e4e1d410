//! Error taxonomy of the controller.
//!
//! `EngineError` covers any failure surfaced by the external router engine,
//! `StageError` local failures while staging secret material, and
//! `EnvironmentError` local operating-system failures unrelated to the
//! engine. `J4I2PRSError` is the crate-wide sum of the three.

use vstd::prelude::*;

verus! {

/// A failure surfaced by the external router engine.
#[derive(Clone, Copy, Debug, PartialEq, Eq, Structural)]
pub enum EngineError {
    /// The external runtime could not be instantiated.
    ConstructionFailed,
    /// A method invocation on an engine instance failed.
    InvocationFailed,
    /// A value returned by the engine could not be converted.
    MarshallingFailed,
}

/// A local failure while staging secret key material.
#[derive(Clone, Copy, Debug, PartialEq, Eq, Structural)]
pub enum StageError {
    /// Writing the staged file failed.
    WriteFailed,
    /// The secret was not valid base64 text; nothing was written.
    DecodeFailed,
}

/// A local operating-system failure unrelated to the engine.
#[derive(Clone, Copy, Debug, PartialEq, Eq, Structural)]
pub enum EnvironmentError {
    /// The current working directory could not be read.
    CwdUnavailable,
}

/// Any failure of the controller.
#[derive(Clone, Copy, Debug, PartialEq, Eq, Structural)]
pub enum J4I2PRSError {
    Engine(EngineError),
    Stage(StageError),
    Environment(EnvironmentError),
}

} // verus!

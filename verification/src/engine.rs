//! Errors of the engine that drives animation instances.
//!
//! The engine itself wraps the host's frame loop and shared mutable state and
//! lives outside this verified core; the error values it reports are plain
//! data and are modelled here.

use vstd::prelude::*;

verus! {

/// Why a call into the animation engine failed.
#[derive(Debug, Clone, Copy, PartialEq, Eq)]
pub enum EngineError {
    /// The engine's shared state could not be read.
    ReadError,
    /// The engine's shared state could not be written.
    WriteError,
    /// The host refused to schedule an animation frame.
    RafFailure,
}

impl EngineError {
    /// A short description of the error.
    pub fn message(&self) -> (r: &'static str)
        ensures
            *self == EngineError::ReadError ==> r@ == "Engine Async Read Error"@,
            *self == EngineError::WriteError ==> r@ == "Engine Async Write Error"@,
            *self == EngineError::RafFailure ==> r@ == "Failed to call requestAnimationFrame"@,
    {
        match self {
            EngineError::ReadError => "Engine Async Read Error",
            EngineError::WriteError => "Engine Async Write Error",
            EngineError::RafFailure => "Failed to call requestAnimationFrame",
        }
    }
}

} // verus!

//! Failure taxonomy of the render-setup path.
//!
//! These are one-shot startup-time failures, not steady-state ones: a
//! missing node or a failed target allocation aborts the painting it
//! belongs to, a bad shader entry point aborts that pipeline. None of
//! them is retried.

use vstd::prelude::*;

verus! {

/// Errors reported by the render-setup path.
#[derive(Debug, Clone, PartialEq, Eq)]
pub enum RenderError {
    /// A name was looked up in the scene graph and no node carries it.
    /// The payload is the name that failed, so the assembly step can
    /// report exactly which painting could not be placed.
    NamedNodeNotFound(String),
    /// The scene graph was queried before the environment reached
    /// `Ready`.
    NotReady,
    /// A requested shader entry point does not exist in the compiled
    /// module; the pipeline variant is not produced.
    PipelineSpecializationFailed,
    /// The compositor could not allocate a fresh render target; fatal
    /// to the painting being assembled, harmless to the others.
    RenderTargetAllocationFailed,
}

} // verus!

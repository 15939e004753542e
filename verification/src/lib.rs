//! Verified core of an interactive gallery viewer: an asynchronous
//! load-state machine that gates scene-dependent work, a named-node
//! lookup with bounding-box placement, an off-screen compositor that
//! allocates per-painting render targets, a material specializer that
//! deduplicates pipeline variants by shader entry point, and the
//! per-frame shared-uniform snapshot discipline.
//!
//! The engine collaborators (asset loading, GPU submission, windowing)
//! live outside this crate; the library works on plain values that an
//! embedding hands in and takes back.

pub mod compositor;
pub mod environment;
pub mod errors;
pub mod math;
pub mod paintings;
pub mod shader;
pub mod uniforms;

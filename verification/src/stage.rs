//! Schedule stage labels.
//!
//! Stages order the per-frame work: extraction must complete before
//! classification reads its output, classification before batching, and
//! batching before the draw pass. A scheduler runs systems of the same
//! stage freely but never starts a stage before the previous one is done,
//! which is what keeps each frame working on one consistent snapshot.

use vstd::prelude::*;

verus! {

/// The core schedule stages, in the order a frame runs them.
#[derive(Debug, Hash, PartialEq, Eq, Structural, Clone, Copy)]
pub enum CoreStage {
    First,
    EventUpdateStage,
    Startup,
    PreUpdate,
    Update,
    PostUpdate,
}

/// Sub-stages of startup, run once before the first frame.
#[derive(Debug, Hash, PartialEq, Eq, Structural, Clone, Copy)]
pub enum StartupStage {
    PreStartup,
    Startup,
    PostStartup,
}

/// The stage the render pipeline runs in, scheduled before `CoreStage::Update`.
#[derive(Debug, Hash, PartialEq, Eq, Structural, Clone, Copy)]
pub enum RenderStage {
    Draw,
}

/// An event that indicates the app should exit. This will fully exit the app process.
#[derive(Debug, Clone)]
pub struct AppExit;

} // verus!

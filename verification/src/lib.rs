//! Core of a frame-rendering pipeline for a real-time 3D engine.
//!
//! Each frame, the live scene is copied into an immutable snapshot
//! (extraction), the snapshot is split into render phases with
//! phase-specific ordering (classification), items sharing a pipeline key
//! are merged into contiguous vertex/index buffers with texture-array
//! slots assigned (batching), and the ordered batches are turned into an
//! explicit list of draw commands (the draw pass).
//!
//! All geometry and color values are 16.16 fixed-point integers, so the
//! whole pipeline is plain integer arithmetic; an embedder converts its
//! floating-point scene data at the boundary and hands the emitted draw
//! commands to a GPU backend.

pub mod asset;
pub mod batch;
pub mod color;
pub mod draw;
pub mod extract;
pub mod fp;
pub mod math;
pub mod phase;
pub mod pipeline;
pub mod stage;
pub mod texture;


//! A procedurally generated terrain chunk: exact-integer mesh generation by
//! Delaunay triangulation, a deterministic fixed-point noise field with
//! texture baking, a camera with clamped pitch, an insertion-ordered event
//! queue with resize detection, and a per-frame runtime that folds events
//! into camera and key state.

pub mod camera;
pub mod event;
pub mod fixed;
pub mod mesh;
pub mod noise;
pub mod runtime;

//! Core logic of a small 2D engine: sprite batching, mesh tables, surface and
//! frame decisions, frame timing, input state and system scheduling.
pub mod application;
pub mod ecs;
pub mod input;
pub mod mesh;
pub mod sprite;
pub mod surface;
pub mod timer;

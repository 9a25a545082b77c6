//! Schwarzschild black-hole lensing visualizer, host-side core.
//!
//! The library precomputes, once, an outcome table describing how light rays
//! at every discretized incidence angle behave around a non-rotating black
//! hole (captured by the horizon versus escaping to infinity), and then uses
//! that table every frame to composite a camera-steerable view that blends a
//! background sky texture with an event-horizon surface texture.
//!
//! All angular and screen-space quantities are fixed-point integers counting
//! 1/65536 units, so that every stage of the pipeline is deterministic and
//! its arithmetic can be checked exactly.

pub mod fixed;
pub mod physics;
pub mod table;
pub mod texture;
pub mod render;
pub mod camera;
pub mod session;
pub mod config;
pub mod schwarz;

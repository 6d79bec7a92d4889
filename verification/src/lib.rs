//! A 2D Newtonian gravity simulator with outcome classification.
//!
//! All physics runs on a deterministic fixed-point scalar type, so every
//! arithmetic step has an exact mathematical specification and repeated
//! runs on identical inputs are bit-reproducible.

pub mod config;
pub mod fixed;
pub mod physics;
pub mod simulation;
pub mod sweep;
pub mod threebody;
pub mod vec2;

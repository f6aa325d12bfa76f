//! Black-body color and particle-fire core.
//!
//! The verified part of the pipeline: the spectral sampling grid and the
//! color-matching lobe tables used to integrate a black-body spectrum, and the
//! layout of the vertex, color and index buffers that a particle system hands
//! to a renderer.
pub mod animation;
pub mod cube;
pub mod frame;
pub mod spectrum;

//! Procedural terrain heightmaps with a GPU-driven erosion pass.
//!
//! The crate has two halves.  The generation half turns a
//! [`config::TerrainConfig`] into a heightmap: a grid of elevation samples
//! produced by fractal Brownian motion over gradient noise, remapped into
//! the unit interval and encoded either as one single-precision float per
//! sample (for storage textures the compute stage rewrites in place) or as
//! one byte per sample (for display-only textures).  The erosion half
//! schedules the compute pass: a queue of texture handles awaiting erosion,
//! a lifecycle state machine for the asynchronously compiled compute
//! pipeline, and a per-frame dispatch node that issues at most one dispatch
//! per frame, only once the pipeline is ready and the frame's target is
//! bound.
//!
//! Elevation samples are carried as IEEE 754 bit patterns (`u64` for double
//! precision, `u32` for single precision), and continuous parameters as
//! counts of millionths, so that clamping, narrowing and validation are
//! ordinary integer logic.  Everything floating point happens inside the
//! noise sampling itself, behind the trusted functions of [`noise_field`].

pub mod config;
pub mod dispatch;
pub mod float_bits;
pub mod frame;
pub mod heightmap;
pub mod noise_field;
pub mod pipeline;
pub mod queue;

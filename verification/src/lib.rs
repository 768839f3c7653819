//! Core of a deferred-rendering frame pipeline for a small 3D scene graph.
//!
//! The crate covers the CPU-side logic of the renderer: the scene resource
//! cache that turns authored figures into GPU-resident buffers exactly once
//! per scene revision, the two-subpass render-pass description, the frame
//! state machine that sequences the geometry and lighting passes, and the
//! draw-command generation of both passes.
//!
//! GPU objects are modelled as plain values: every buffer, image and
//! descriptor set carries the numeric identity it was allocated under, so
//! that reuse (the cache serving the same buffers twice) and reallocation
//! (attachments rebuilt on resize) are visible as statements about those
//! identities.  Scalar quantities that the GPU consumes as 32-bit floats
//! (positions, colors, matrices, radii) are carried as their IEEE 754 bit
//! patterns in `u32` fields; the host layer that talks to the real device
//! reinterprets them without loss.

pub mod ambient;
pub mod cache;
pub mod camera;
pub mod directional;
pub mod draws;
pub mod figure;
pub mod fps;
pub mod geometry;
pub mod gpu;
pub mod lighting;
pub mod lights;
pub mod frame;
pub mod pointing;
pub mod q;
pub mod queue;
pub mod rendering;
pub mod scene;
pub mod swapchain;
pub mod system;
pub mod tracing;

//! The rendering core of a browser-hosted 3D scene editor.
//!
//! - [`resources`]: the append-only arena of GPU buffers and render
//!   pipelines, with kind-tagged buffer handles and a registry that admits
//!   each pipeline name once.
//! - [`mesh`]: meshes and the staged builder that allocates their buffers.
//! - [`draw`]: recording a frame's meshes into a render pass.
//! - [`events`]: what the render loop does about each input event.
//! - [`frame`]: the viewport, the depth target's size, and the layout of a
//!   depth read-back.
//! - [`geometry`]: shaping decoded index and attribute streams for upload.
use vstd::prelude::*;

pub mod draw;
pub mod events;
pub mod frame;
pub mod geometry;
pub mod mesh;
pub mod resources;

verus! {

} // verus!

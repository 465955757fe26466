//! Two passes of a renderer: screen-space ambient occlusion, and the stroking of
//! mesh edges and vertices.
//!
//! The passes ask a [`resources::RenderContext`] for what they need on the GPU,
//! and record what they draw in a [`commands::CommandEncoder`].

pub mod bytes;
pub mod commands;
pub mod gpu_types;
pub mod handles;
pub mod inline_vec;
pub mod mesh_element_laws;
pub mod mesh_element_renderer;
pub mod occlusion;
pub mod occlusion_laws;
pub mod resources;
pub mod uniforms;

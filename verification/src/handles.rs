//! Names for what the GPU holds, and the values that are made of them.
use vstd::prelude::*;

use crate::gpu_types::{ClearColor, StoreOp};

verus! {

/// A texture: the place of its request.
#[derive(Clone, Copy, Debug, PartialEq, Eq, Structural)]
pub struct GpuTextureHandle {
    pub index: usize,
}

/// A texture, with the view of it that covers all of it.
#[derive(Clone, Copy, Debug, PartialEq, Eq, Structural)]
pub struct GpuTexture {
    pub handle: GpuTextureHandle,
}

/// A buffer that bind groups refer to.
#[derive(Clone, Copy, Debug, PartialEq, Eq, Structural)]
pub enum GpuBufferHandle {
    /// A buffer that was asked for: the place of its request.
    Requested(usize),
    /// A buffer that was on the GPU before, by its owner's number for it.
    Resident(u64),
}

/// A uniform buffer that was filled when it was made: the place of its request.
#[derive(Clone, Copy, Debug, PartialEq, Eq, Structural)]
pub struct GpuUniformHandle {
    pub index: usize,
}

/// A bind group layout.
#[derive(Clone, Copy, Debug, PartialEq, Eq, Structural)]
pub enum GpuBindGroupLayoutHandle {
    /// The layout of the bindings that all passes of a frame share.
    Global,
    /// A layout that was asked for: the place of its request.
    Requested(usize),
}

/// A bind group: the place of its request.
#[derive(Clone, Copy, Debug, PartialEq, Eq, Structural)]
pub struct GpuBindGroup {
    pub index: usize,
}

/// A pipeline layout: the place of its request.
#[derive(Clone, Copy, Debug, PartialEq, Eq, Structural)]
pub struct GpuPipelineLayoutHandle {
    pub index: usize,
}

/// A shader module: the place of its request.
#[derive(Clone, Copy, Debug, PartialEq, Eq, Structural)]
pub struct GpuShaderModuleHandle {
    pub index: usize,
}

/// A render pipeline: the place of its request.
#[derive(Clone, Copy, Debug, PartialEq, Eq, Structural)]
pub struct GpuRenderPipelineHandle {
    pub index: usize,
}

/// What a bind group binds. Its place in the group is its binding number.
#[derive(Clone, Copy, Debug, PartialEq, Eq)]
pub enum BindGroupEntry {
    /// All of a texture.
    DefaultTextureView(GpuTextureHandle),
    /// All of a uniform buffer.
    Uniform(GpuUniformHandle),
    /// A part of a buffer: `size` bytes from `offset` on, or, without a size,
    /// all of them.
    Buffer { handle: GpuBufferHandle, offset: u64, size: Option<u64> },
}

/// A texture that a pass draws to. It is drawn to as a whole, and is not
/// resolved into another.
#[derive(Clone, Copy, Debug, PartialEq, Eq, Structural)]
pub struct ColorAttachment {
    pub view: GpuTextureHandle,
    pub clear: ClearColor,
    pub store: StoreOp,
}

} // verus!

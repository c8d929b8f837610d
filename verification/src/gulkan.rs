//! Opaque names for the objects of the scene device's graphics layer.
//!
//! The library never looks inside one of these. They exist so that code which
//! talks to the device can say what a handle points to; a value of one of
//! them cannot be made.

use vstd::prelude::*;

verus! {

/// A buffer in device memory.
#[derive(Debug)]
pub struct GulkanBuffer {
    _data: [u8; 0],
}

/// A command buffer.
#[derive(Debug)]
pub struct GulkanCmdBuffer {
    _data: [u8; 0],
}

/// A pool of descriptor sets.
#[derive(Debug)]
pub struct GulkanDescriptorPool {
    _data: [u8; 0],
}

/// The logical device.
#[derive(Debug)]
pub struct GulkanDevice {
    _data: [u8; 0],
}

/// A framebuffer.
#[derive(Debug)]
pub struct GulkanFrameBuffer {
    _data: [u8; 0],
}

/// The instance of the graphics API.
#[derive(Debug)]
pub struct GulkanInstance {
    _data: [u8; 0],
}

/// A queue of the device.
#[derive(Debug)]
pub struct GulkanQueue {
    _data: [u8; 0],
}

/// A render pass.
#[derive(Debug)]
pub struct GulkanRenderPass {
    _data: [u8; 0],
}

/// A swapchain.
#[derive(Debug)]
pub struct GulkanSwapchain {
    _data: [u8; 0],
}

/// A texture in device memory, such as the destination texture of a window.
#[derive(Debug)]
pub struct GulkanTexture {
    _data: [u8; 0],
}

/// A uniform buffer.
#[derive(Debug)]
pub struct GulkanUniformBuffer {
    _data: [u8; 0],
}

/// A vertex buffer.
#[derive(Debug)]
pub struct GulkanVertexBuffer {
    _data: [u8; 0],
}

} // verus!

//! Stable identifiers for resources that live on the graphics device.
//!
//! The library never touches a device object itself. It refers to each one by
//! an identifier that the embedding program hands out when it creates the
//! object, and that stays valid for as long as the program keeps the object.

use vstd::prelude::*;

verus! {

/// A device-accessible buffer of vertices, indices or uniform data.
#[derive(Clone, Copy, Debug, PartialEq, Eq, Hash, Structural)]
pub struct BufferHandle(pub u64);

/// One presentable image of a swapchain.
#[derive(Clone, Copy, Debug, PartialEq, Eq, Hash, Structural)]
pub struct ImageHandle(pub u64);

/// A swapchain: the rotating set of presentable images of a surface.
#[derive(Clone, Copy, Debug, PartialEq, Eq, Hash, Structural)]
pub struct SwapchainHandle(pub u64);

/// A render pass.
#[derive(Clone, Copy, Debug, PartialEq, Eq, Hash, Structural)]
pub struct RenderPassHandle(pub u64);

/// A compiled graphics pipeline.
#[derive(Clone, Copy, Debug, PartialEq, Eq, Hash, Structural)]
pub struct PipelineHandle(pub u64);

/// A logical device.
#[derive(Clone, Copy, Debug, PartialEq, Eq, Hash, Structural)]
pub struct DeviceHandle(pub u64);

/// A device queue.
#[derive(Clone, Copy, Debug, PartialEq, Eq, Hash, Structural)]
pub struct QueueHandle(pub u64);

/// A window surface.
#[derive(Clone, Copy, Debug, PartialEq, Eq, Hash, Structural)]
pub struct SurfaceHandle(pub u64);

/// A token for work that the device has been given and may not have finished.
#[derive(Clone, Copy, Debug, PartialEq, Eq, Hash, Structural)]
pub struct FutureToken(pub u64);

} // verus!

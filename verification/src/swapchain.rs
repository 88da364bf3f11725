//! The swapchain and what is derived from it: one framebuffer for each of its
//! images, and the viewport that covers them.

use vstd::prelude::*;
use crate::handles::{ImageHandle, RenderPassHandle, SwapchainHandle};
use crate::render_manager::RenderManager;

verus! {

/// Width and height in pixels.
#[derive(Clone, Copy, Debug, PartialEq, Eq, Structural)]
pub struct Extent {
    pub width: u32,
    pub height: u32,
}

/// The rectangle and depth range that drawing is mapped to. All six numbers
/// are whole: the origin and size in pixels, the depth range as its two ends.
#[derive(Clone, Copy, Debug, PartialEq, Eq, Structural)]
pub struct Viewport {
    pub x: u32,
    pub y: u32,
    pub width: u32,
    pub height: u32,
    pub min_depth: u32,
    pub max_depth: u32,
}

impl Viewport {
    /// The viewport with its size replaced, origin and depth range kept.
    pub open spec fn resized(self, extent: Extent) -> Viewport {
        Viewport { width: extent.width, height: extent.height, ..self }
    }

    /// The size of the viewport.
    pub open spec fn extent(self) -> Extent {
        Extent { width: self.width, height: self.height }
    }

    /// A viewport at the origin with no area yet and the full depth range.
    pub fn empty() -> (viewport: Self)
        ensures
            viewport == (Viewport { x: 0, y: 0, width: 0, height: 0, min_depth: 0, max_depth: 1 }),
    {
        Viewport { x: 0, y: 0, width: 0, height: 0, min_depth: 0, max_depth: 1 }
    }
}

/// One presentable image and its size.
#[derive(Clone, Copy, Debug, PartialEq, Eq, Structural)]
pub struct SwapchainImage {
    pub handle: ImageHandle,
    pub extent: Extent,
}

/// A render target: one image view attached to a render pass.
#[derive(Clone, Copy, Debug, PartialEq, Eq, Structural)]
pub struct Framebuffer {
    pub image: ImageHandle,
    pub extent: Extent,
    pub render_pass: RenderPassHandle,
}

/// What a swapchain holds, as mathematical values.
pub struct SwapchainView {
    pub handle: SwapchainHandle,
    pub images: Seq<SwapchainImage>,
}

/// A swapchain and its images, in the order in which the device numbers them.
#[derive(Debug, PartialEq, Eq)]
pub struct Swapchain {
    pub handle: SwapchainHandle,
    pub images: Vec<SwapchainImage>,
}

impl View for Swapchain {
    type V = SwapchainView;

    open spec fn view(&self) -> SwapchainView {
        SwapchainView { handle: self.handle, images: self.images@ }
    }
}

/// The framebuffers of a list of images: one for each image, in the same
/// order, wrapping that image alone, of that image's size.
pub open spec fn framebuffers_for(
    images: Seq<SwapchainImage>,
    render_pass: RenderPassHandle,
) -> Seq<Framebuffer> {
    Seq::new(
        images.len(),
        |i: int| Framebuffer { image: images[i].handle, extent: images[i].extent, render_pass },
    )
}

impl RenderManager {
    /// Derives what depends on the size of the window from the images of a
    /// swapchain: sets the size of the viewport to that of the first image, and
    /// returns one framebuffer for each image.
    pub fn window_size_dependent_setup(
        images: &Vec<SwapchainImage>,
        render_pass: RenderPassHandle,
        viewport: &mut Viewport,
    ) -> (framebuffers: Vec<Framebuffer>)
        requires
            images@.len() > 0,
        ensures
            *final(viewport) == old(viewport).resized(images@[0].extent),
            framebuffers@ == framebuffers_for(images@, render_pass),
            framebuffers@.len() == images@.len(),
    {
        let dimensions = images[0].extent;
        viewport.width = dimensions.width;
        viewport.height = dimensions.height;
        let mut framebuffers: Vec<Framebuffer> = Vec::new();
        let mut i: usize = 0;
        while i < images.len()
            invariant
                i <= images@.len(),
                framebuffers@.len() == i,
                forall|j: int| 0 <= j < i ==> framebuffers@[j] == framebuffers_for(images@, render_pass)[j],
            decreases images@.len() - i,
        {
            let image = images[i];
            framebuffers.push(Framebuffer { image: image.handle, extent: image.extent, render_pass });
            i += 1;
        }
        assert(framebuffers@ =~= framebuffers_for(images@, render_pass));
        framebuffers
    }

    /// Chooses what the first swapchain is created with.
    pub fn create_swapchain_and_images(
        caps: &SurfaceCapabilities,
        dimensions: Extent,
    ) -> (config: Option<SwapchainConfig>)
        ensures
            config == swapchain_config(*caps, dimensions),
    {
        if caps.supported_formats.len() == 0 || caps.supported_composite_alpha.len() == 0 {
            return None;
        }
        Some(
            SwapchainConfig {
                num_images: caps.min_image_count,
                format: caps.supported_formats[0],
                dimensions,
                composite_alpha: caps.supported_composite_alpha[0],
            },
        )
    }
}

/// What a surface can do, as far as the choice of a swapchain goes.
#[derive(Debug, PartialEq, Eq)]
pub struct SurfaceCapabilities {
    /// The least number of images that a swapchain of the surface has.
    pub min_image_count: u32,
    /// The image formats that the surface takes, the preferred one first.
    pub supported_formats: Vec<u32>,
    /// The ways of blending with the desktop that the surface offers, in
    /// the order in which the device lists them.
    pub supported_composite_alpha: Vec<u32>,
}

/// What a swapchain is created with.
#[derive(Clone, Copy, Debug, PartialEq, Eq, Structural)]
pub struct SwapchainConfig {
    pub num_images: u32,
    pub format: u32,
    pub dimensions: Extent,
    pub composite_alpha: u32,
}

/// The swapchain to ask for on a surface of the given size: as few images
/// as the surface allows, its first format and its first way of blending.
/// There is none if the surface offers no format or no way of blending.
pub open spec fn swapchain_config(
    caps: SurfaceCapabilities,
    dimensions: Extent,
) -> Option<SwapchainConfig> {
    if caps.supported_formats@.len() > 0 && caps.supported_composite_alpha@.len() > 0 {
        Some(
            SwapchainConfig {
                num_images: caps.min_image_count,
                format: caps.supported_formats@[0],
                dimensions,
                composite_alpha: caps.supported_composite_alpha@[0],
            },
        )
    } else {
        None
    }
}

} // verus!

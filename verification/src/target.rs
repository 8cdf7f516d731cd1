//! The render target and its passage from simulation state to render state.
//!
//! The target is a two-dimensional image that the compute programs write and
//! a later draw samples. It is created once and lives as long as the process.
//! The simulation state owns it; the render state gets a copy of its handle
//! at the start of every frame.

use vstd::prelude::*;
use bevy::asset::HandleId;
use crate::bind_group::ResourceView;
use crate::grid::COMPUTE_IMG_SIZE;
use crate::layout::PixelFormat;

verus! {

/// What a texture may be used for.
#[derive(Clone, Copy, Debug, PartialEq, Eq, Structural)]
pub struct TextureUsage {
    /// The host may copy data into it.
    pub copy_dst: bool,
    /// A compute program may write it as a storage texture.
    pub storage_binding: bool,
    /// A draw may sample it.
    pub texture_binding: bool,
}

/// How the render target is to be created.
#[derive(Clone, Copy, Debug, PartialEq, Eq, Structural)]
pub struct RenderTargetDescriptor {
    /// Width in compute threads, one per texel.
    pub width: u32,
    /// Height in compute threads, one per texel.
    pub height: u32,
    pub format: PixelFormat,
    pub usage: TextureUsage,
}

impl RenderTargetDescriptor {
    /// Every use a render target is created for.
    pub open spec fn full_usage() -> TextureUsage {
        TextureUsage { copy_dst: true, storage_binding: true, texture_binding: true }
    }

    /// Describes a target of the given size: four 8-bit channels per texel,
    /// writable by compute, sampled by draws, and updatable from the host.
    pub fn new(width: u32, height: u32) -> (descriptor: RenderTargetDescriptor)
        ensures
            descriptor == (RenderTargetDescriptor {
                width,
                height,
                format: PixelFormat::Rgba8Unorm,
                usage: Self::full_usage(),
            }),
    {
        RenderTargetDescriptor {
            width,
            height,
            format: PixelFormat::Rgba8Unorm,
            usage: TextureUsage { copy_dst: true, storage_binding: true, texture_binding: true },
        }
    }

    /// Describes the demo target.
    pub fn demo() -> (descriptor: RenderTargetDescriptor)
        ensures
            descriptor == (RenderTargetDescriptor {
                width: COMPUTE_IMG_SIZE.0,
                height: COMPUTE_IMG_SIZE.1,
                format: PixelFormat::Rgba8Unorm,
                usage: Self::full_usage(),
            }),
    {
        RenderTargetDescriptor::new(COMPUTE_IMG_SIZE.0, COMPUTE_IMG_SIZE.1)
    }

    /// The target as a frame sees it once its GPU side exists.
    pub fn view(&self) -> (view: ResourceView)
        ensures
            view == (ResourceView::Texture {
                format: self.format,
                width: self.width,
                height: self.height,
            }),
    {
        ResourceView::Texture { format: self.format, width: self.width, height: self.height }
    }
}

/// Handle of the render target. A handle names the image, it does not hold
/// it, so it is cheap to copy.
#[derive(Clone, Copy, Debug)]
pub struct MyComputeShaderRenderTarget(pub HandleId);

impl MyComputeShaderRenderTarget {
    /// Publishes the handle into the render state: the copy names the same
    /// image as the source, and the source is left as it was.
    pub fn extract_resource(source: &MyComputeShaderRenderTarget) -> (extracted:
        MyComputeShaderRenderTarget)
        ensures
            extracted == *source,
    {
        MyComputeShaderRenderTarget(source.0)
    }
}

} // verus!

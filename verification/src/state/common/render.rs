//! The render core: the GPU resources with the configuration of their
//! surface.

use vstd::prelude::*;
use wgpu::TextureFormat;

verus! {

/// `wgpu::TextureFormat`, the layout of a pixel. The engine chooses among
/// formats and hands the chosen one through without looking inside.
#[verifier::external_type_specification]
#[verifier::external_body]
pub struct ExTextureFormat(TextureFormat);

/// How frames are handed to the display.
#[derive(Clone, Copy, Debug, PartialEq, Eq, Structural)]
pub enum PresentMode {
    AutoVsync,
    AutoNoVsync,
    Fifo,
    FifoRelaxed,
    Immediate,
    Mailbox,
}

/// How the surface's alpha channel is composited with what lies behind the
/// window.
#[derive(Clone, Copy, Debug, PartialEq, Eq, Structural)]
pub enum CompositeAlphaMode {
    Auto,
    Opaque,
    PreMultiplied,
    PostMultiplied,
    Inherit,
}

/// The configuration of a presentable surface. `view_formats` are the
/// formats, besides `format`, in which views of the surface may be made.
#[derive(Debug, PartialEq, Eq)]
pub struct SurfaceConfiguration {
    pub format: TextureFormat,
    pub width: u32,
    pub height: u32,
    pub present_mode: PresentMode,
    pub alpha_mode: CompositeAlphaMode,
    pub view_formats: Vec<TextureFormat>,
    pub desired_maximum_frame_latency: u32,
}

/// Holds the core render objects: the GPU resources (instance, adapter,
/// device, queue and surface) and the surface's configuration. The engine
/// passes the resources on without looking inside.
#[derive(Debug)]
pub struct RenderCore<G> {
    pub resources: G,
    pub surface_config: SurfaceConfiguration,
}

} // verus!

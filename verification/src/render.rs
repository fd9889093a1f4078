//! The renderer's fixed options and the plan of each frame: render the scene
//! into an intermediate texture of the surface's size, then copy it onto the
//! surface.

use vstd::prelude::*;
use crate::surface::{intermediate_desc, intermediate_texture, is_presentable, SurfaceState, TextureDesc, TextureFormat};

verus! {

/// An anti-aliasing method.
#[derive(Clone, Copy, Debug, PartialEq, Eq, Structural)]
pub enum AaConfig {
    /// Area coverage.
    Area,
    /// Eight samples per pixel.
    Msaa8,
    /// Sixteen samples per pixel.
    Msaa16,
}

/// Which anti-aliasing methods a renderer is prepared for.
#[derive(Clone, Copy, Debug, PartialEq, Eq, Structural)]
pub struct AaSupport {
    pub area: bool,
    pub msaa8: bool,
    pub msaa16: bool,
}

/// The options a renderer is created with.
#[derive(Clone, Copy, Debug, PartialEq, Eq, Structural)]
pub struct RendererConf {
    /// Whether the stages before fine rasterisation run on the CPU.
    pub use_cpu: bool,
    pub antialiasing_support: AaSupport,
    /// How many threads compile the shaders; `None` lets the renderer choose.
    pub num_init_threads: Option<usize>,
    /// Whether a pipeline cache is handed to the renderer.
    pub use_pipeline_cache: bool,
}

/// The options every renderer of the backend is created with: on the GPU,
/// prepared for every anti-aliasing method, one shader thread, no cache.
pub open spec fn renderer_conf_spec() -> RendererConf {
    RendererConf {
        use_cpu: false,
        antialiasing_support: AaSupport { area: true, msaa8: true, msaa16: true },
        num_init_threads: Some(1),
        use_pipeline_cache: false,
    }
}

/// The options every renderer of the backend is created with.
pub fn renderer_conf() -> (res: RendererConf)
    ensures
        res == renderer_conf_spec(),
        !res.use_cpu,
        res.antialiasing_support.area && res.antialiasing_support.msaa8 && res.antialiasing_support.msaa16,
        res.num_init_threads == Some(1usize),
        !res.use_pipeline_cache,
{
    RendererConf {
        use_cpu: false,
        antialiasing_support: AaSupport { area: true, msaa8: true, msaa16: true },
        num_init_threads: Some(1),
        use_pipeline_cache: false,
    }
}

/// The renderer is prepared for the method.
pub open spec fn supports(s: AaSupport, method: AaConfig) -> bool {
    match method {
        AaConfig::Area => s.area,
        AaConfig::Msaa8 => s.msaa8,
        AaConfig::Msaa16 => s.msaa16,
    }
}

/// Whether the renderer is prepared for the method.
pub fn supports_method(s: AaSupport, method: AaConfig) -> (res: bool)
    ensures
        res == supports(s, method),
{
    match method {
        AaConfig::Area => s.area,
        AaConfig::Msaa8 => s.msaa8,
        AaConfig::Msaa16 => s.msaa16,
    }
}

/// A colour of 8 bits per channel.
#[derive(Clone, Copy, Debug, PartialEq, Eq, Structural)]
pub struct Rgba8 {
    pub r: u8,
    pub g: u8,
    pub b: u8,
    pub a: u8,
}

/// What one frame is rendered with.
#[derive(Clone, Copy, Debug, PartialEq, Eq, Structural)]
pub struct FramePlan {
    /// The colour the target is cleared to.
    pub base_color: Rgba8,
    /// The size of the rasterisation target.
    pub width: u32,
    pub height: u32,
    pub antialiasing: AaConfig,
    /// The intermediate texture the scene is rendered into.
    pub target: TextureDesc,
    /// The format the intermediate texture is copied into the surface with.
    pub blit_format: TextureFormat,
}

/// The plan of a frame on a surface: opaque white background, the surface's
/// size, sixteen samples per pixel, an intermediate texture of that size, and a
/// copy in the surface's format.
pub open spec fn frame_plan_spec(surface: SurfaceState) -> FramePlan {
    FramePlan {
        base_color: Rgba8 { r: 255, g: 255, b: 255, a: 255 },
        width: surface.config_spec().width,
        height: surface.config_spec().height,
        antialiasing: AaConfig::Msaa16,
        target: intermediate_desc(surface.config_spec().width, surface.config_spec().height),
        blit_format: surface.config_spec().format,
    }
}

/// Plans the next frame on a surface.
pub fn plan_frame(surface: &SurfaceState) -> (res: FramePlan)
    ensures
        res == frame_plan_spec(*surface),
        res.blit_format == surface.config_spec().format,
        res.width == surface.config_spec().width,
        res.height == surface.config_spec().height,
        res.target == intermediate_desc(surface.config_spec().width, surface.config_spec().height),
        res.antialiasing == AaConfig::Msaa16,
{
    let config = surface.config();
    let width = config.width;
    let height = config.height;
    FramePlan {
        base_color: Rgba8 { r: 255, g: 255, b: 255, a: 255 },
        width,
        height,
        antialiasing: AaConfig::Msaa16,
        target: intermediate_texture(width, height),
        blit_format: config.format,
    }
}

/// Every frame can be rendered: the renderer the backend creates is prepared
/// for the frame's anti-aliasing method; the scene is rasterised at the size
/// of the surface, into an `Rgba8Unorm` texture of that size that can be
/// bound as storage; and it is copied onto the surface in a presentable format,
/// the one the surface was configured with.
pub proof fn law_frame_renderable(surface: SurfaceState)
    requires
        surface.wf(),
    ensures
        supports(renderer_conf_spec().antialiasing_support, frame_plan_spec(surface).antialiasing),
        frame_plan_spec(surface).width == surface.config_spec().width,
        frame_plan_spec(surface).height == surface.config_spec().height,
        frame_plan_spec(surface).target.width == frame_plan_spec(surface).width,
        frame_plan_spec(surface).target.height == frame_plan_spec(surface).height,
        frame_plan_spec(surface).target.format == TextureFormat::Rgba8Unorm,
        frame_plan_spec(surface).target.usage.storage_binding,
        frame_plan_spec(surface).target == surface.target_spec(),
        is_presentable(frame_plan_spec(surface).blit_format),
        frame_plan_spec(surface).blit_format == surface.config_spec().format,
{
}

/// The frame is copied onto the surface in exactly the format the surface was
/// configured with, and is cleared to opaque white with sixteen samples per
/// pixel, at the surface's size; this holds of every surface.
pub proof fn law_frame_follows_surface(surface: SurfaceState)
    ensures
        frame_plan_spec(surface).blit_format == surface.config_spec().format,
        frame_plan_spec(surface).width == surface.config_spec().width,
        frame_plan_spec(surface).height == surface.config_spec().height,
        frame_plan_spec(surface).target.width == surface.config_spec().width,
        frame_plan_spec(surface).target.height == surface.config_spec().height,
        frame_plan_spec(surface).antialiasing == AaConfig::Msaa16,
        frame_plan_spec(surface).base_color == (Rgba8 { r: 255, g: 255, b: 255, a: 255 }),
{
}

} // verus!

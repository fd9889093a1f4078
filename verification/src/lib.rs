//! The decision logic of a Vello/wgpu rendering backend: choosing a graphics
//! adapter, configuring a presentation surface, and planning each frame.
//! The GPU work itself (creating devices, surfaces and textures, submitting
//! commands) is done by the caller with the plain values computed here.

pub mod adapter;
pub mod error;
pub mod render;
pub mod search;
pub mod surface;
pub mod text;

pub use adapter::{pick_adapter_by_name, pick_adapter_lowered, PowerPreference, RenderConfig, RendererOptions};
pub use error::RenderError;
pub use search::{accepts_event, search_step, unknown_adapter_message, SearchAction, SearchEvent, SearchPhase};
pub use text::{chars_of, contains_chars, lowercase_chars};
pub use surface::{intermediate_texture, select_surface_format, surface_config, CompositeAlphaMode, PresentMode, SurfaceConfig, SurfaceState, TextureDesc, TextureDimension, TextureFormat, TextureUsages};
pub use render::{plan_frame, renderer_conf, supports_method, AaConfig, AaSupport, FramePlan, RendererConf, Rgba8};

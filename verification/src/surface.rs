//! Presentation surfaces: choosing the surface format, the surface
//! configuration, and the intermediate texture that frames are rendered into
//! before they are copied to the surface.

use vstd::prelude::*;
use crate::error::RenderError;

verus! {

/// A texture format, as far as the backend tells formats apart.
#[derive(Clone, Copy, Debug, PartialEq, Eq, Structural)]
pub enum TextureFormat {
    /// Red, green, blue, alpha; 8 bits each, unsigned, normalised.
    Rgba8Unorm,
    /// Blue, green, red, alpha; 8 bits each, unsigned, normalised.
    Bgra8Unorm,
    /// Any other format.
    Other,
}

/// How the presentation engine paces frames.
#[derive(Clone, Copy, Debug, PartialEq, Eq, Structural)]
pub enum PresentMode {
    AutoVsync,
    AutoNoVsync,
    Fifo,
    FifoRelaxed,
    Immediate,
    Mailbox,
}

/// How the surface's alpha channel is composited.
#[derive(Clone, Copy, Debug, PartialEq, Eq, Structural)]
pub enum CompositeAlphaMode {
    Auto,
    Opaque,
    PreMultiplied,
    PostMultiplied,
    Inherit,
}

/// How many dimensions a texture has.
#[derive(Clone, Copy, Debug, PartialEq, Eq, Structural)]
pub enum TextureDimension {
    D1,
    D2,
    D3,
}

/// The ways a texture may be used, one flag each.
#[derive(Clone, Copy, Debug, PartialEq, Eq, Structural)]
pub struct TextureUsages {
    pub copy_src: bool,
    pub copy_dst: bool,
    pub texture_binding: bool,
    pub storage_binding: bool,
    pub render_attachment: bool,
    pub storage_atomic: bool,
}

/// The usages of a surface texture: render attachment only.
pub open spec fn surface_usage() -> TextureUsages {
    TextureUsages {
        copy_src: false,
        copy_dst: false,
        texture_binding: false,
        storage_binding: false,
        render_attachment: true,
        storage_atomic: false,
    }
}

/// The usages of the intermediate texture: storage binding and texture binding.
pub open spec fn intermediate_usage() -> TextureUsages {
    TextureUsages {
        copy_src: false,
        copy_dst: false,
        texture_binding: true,
        storage_binding: true,
        render_attachment: false,
        storage_atomic: false,
    }
}

/// A format that the surface can be configured with.
pub open spec fn is_presentable(f: TextureFormat) -> bool {
    f == TextureFormat::Rgba8Unorm || f == TextureFormat::Bgra8Unorm
}

/// The first presentable format of `formats`, in their order.
pub open spec fn first_presentable(formats: Seq<TextureFormat>) -> Option<TextureFormat>
    decreases formats.len(),
{
    if formats.len() == 0 {
        None
    } else if is_presentable(formats[0]) {
        Some(formats[0])
    } else {
        first_presentable(formats.drop_first())
    }
}

/// What `first_presentable` gives is presentable and among the formats.
pub proof fn lemma_first_presentable(formats: Seq<TextureFormat>)
    ensures
        first_presentable(formats) matches Some(f) ==> is_presentable(f) && formats.contains(f),
    decreases formats.len(),
{
    if formats.len() > 0 {
        if is_presentable(formats[0]) {
            assert(formats[0] == formats[0]);
        } else {
            lemma_first_presentable(formats.drop_first());
            if let Some(f) = first_presentable(formats.drop_first()) {
                let k = choose|k: int| 0 <= k < formats.drop_first().len() && formats.drop_first()[k] == f;
                assert(formats[k + 1] == f);
            }
        }
    }
}

/// The format chosen from a list is the presentable (`Rgba8Unorm` or
/// `Bgra8Unorm`) format of least position, and there is none exactly when no
/// format of the list is `Rgba8Unorm` or `Bgra8Unorm`.
pub proof fn law_first_presentable(formats: Seq<TextureFormat>)
    ensures
        first_presentable(formats) is None <==> (forall|i: int| 0 <= i < formats.len() ==>
            #[trigger] formats[i] != TextureFormat::Rgba8Unorm && formats[i] != TextureFormat::Bgra8Unorm),
        first_presentable(formats) matches Some(f) ==> exists|i: int| {
            &&& 0 <= i < formats.len()
            &&& #[trigger] formats[i] == f
            &&& (f == TextureFormat::Rgba8Unorm || f == TextureFormat::Bgra8Unorm)
            &&& forall|j: int| 0 <= j < i ==>
                #[trigger] formats[j] != TextureFormat::Rgba8Unorm && formats[j] != TextureFormat::Bgra8Unorm
        },
    decreases formats.len(),
{
    if formats.len() > 0 {
        let rest = formats.drop_first();
        law_first_presentable(rest);
        assert forall|i: int| 1 <= i < formats.len() implies formats[i] == rest[i - 1] by {}
        if !is_presentable(formats[0]) {
            if let Some(f) = first_presentable(rest) {
                let k = choose|k: int| {
                    &&& 0 <= k < rest.len()
                    &&& #[trigger] rest[k] == f
                    &&& (f == TextureFormat::Rgba8Unorm || f == TextureFormat::Bgra8Unorm)
                    &&& forall|j: int| 0 <= j < k ==>
                        #[trigger] rest[j] != TextureFormat::Rgba8Unorm && rest[j] != TextureFormat::Bgra8Unorm
                };
                assert(formats[k + 1] == f);
                assert forall|j: int| 0 <= j < k + 1 implies
                    #[trigger] formats[j] != TextureFormat::Rgba8Unorm && formats[j] != TextureFormat::Bgra8Unorm by {
                    if j > 0 {
                        assert(formats[j] == rest[j - 1]);
                    }
                }
            } else {
                assert forall|i: int| 0 <= i < formats.len() implies
                    #[trigger] formats[i] != TextureFormat::Rgba8Unorm && formats[i] != TextureFormat::Bgra8Unorm by {
                    if i > 0 {
                        assert(formats[i] == rest[i - 1]);
                    }
                }
            }
        } else {
            assert(formats[0] == formats[0]);
        }
    }
}

/// Chooses the surface format: the first of the formats the surface supports
/// that is `Rgba8Unorm` or `Bgra8Unorm`.
pub fn select_surface_format(formats: &Vec<TextureFormat>) -> (res: Result<TextureFormat, RenderError>)
    ensures
        match first_presentable(formats@) {
            Some(f) => res == Ok::<TextureFormat, RenderError>(f),
            None => res == Err::<TextureFormat, RenderError>(RenderError::UnsupportedSurfaceFormat),
        },
        res is Err <==> (forall|i: int| 0 <= i < formats@.len() ==>
            #[trigger] formats@[i] != TextureFormat::Rgba8Unorm && formats@[i] != TextureFormat::Bgra8Unorm),
        res matches Ok(f) ==> exists|i: int| {
            &&& 0 <= i < formats@.len()
            &&& #[trigger] formats@[i] == f
            &&& (f == TextureFormat::Rgba8Unorm || f == TextureFormat::Bgra8Unorm)
            &&& forall|j: int| 0 <= j < i ==>
                #[trigger] formats@[j] != TextureFormat::Rgba8Unorm && formats@[j] != TextureFormat::Bgra8Unorm
        },
{
    proof { law_first_presentable(formats@); }
    let n = formats.len();
    let mut i: usize = 0;
    assert(formats@.skip(0) =~= formats@);
    while i < n
        invariant
            n == formats@.len(),
            i <= n,
            first_presentable(formats@) == first_presentable(formats@.skip(i as int)),
        decreases n - i,
    {
        let f = formats[i];
        assert(formats@.skip(i as int).drop_first() =~= formats@.skip(i + 1));
        if f == TextureFormat::Rgba8Unorm || f == TextureFormat::Bgra8Unorm {
            proof { law_first_presentable(formats@); }
            return Ok(f);
        }
        i = i + 1;
    }
    Err(RenderError::UnsupportedSurfaceFormat)
}

/// The settings a surface is configured with.
#[derive(Debug)]
pub struct SurfaceConfig {
    pub usage: TextureUsages,
    pub format: TextureFormat,
    pub width: u32,
    pub height: u32,
    pub present_mode: PresentMode,
    pub desired_maximum_frame_latency: u32,
    pub alpha_mode: CompositeAlphaMode,
    pub view_formats: Vec<TextureFormat>,
}

/// A description of a texture to create.
#[derive(Clone, Copy, Debug, PartialEq, Eq, Structural)]
pub struct TextureDesc {
    pub width: u32,
    pub height: u32,
    pub depth_or_array_layers: u32,
    pub mip_level_count: u32,
    pub sample_count: u32,
    pub dimension: TextureDimension,
    pub usage: TextureUsages,
    pub format: TextureFormat,
}

/// The intermediate texture of the given size: one layer, one mip level, one
/// sample, two dimensions, `Rgba8Unorm`, usable as storage and for binding.
pub open spec fn intermediate_desc(width: u32, height: u32) -> TextureDesc {
    TextureDesc {
        width,
        height,
        depth_or_array_layers: 1,
        mip_level_count: 1,
        sample_count: 1,
        dimension: TextureDimension::D2,
        usage: intermediate_usage(),
        format: TextureFormat::Rgba8Unorm,
    }
}

/// The intermediate texture of a size has exactly that size, a single layer,
/// mip level and sample, two dimensions and the `Rgba8Unorm` format, and can
/// be bound as storage and as a texture but not rendered to or copied.
pub proof fn law_intermediate_desc(width: u32, height: u32)
    ensures
        intermediate_desc(width, height).width == width,
        intermediate_desc(width, height).height == height,
        intermediate_desc(width, height).depth_or_array_layers == 1,
        intermediate_desc(width, height).mip_level_count == 1,
        intermediate_desc(width, height).sample_count == 1,
        intermediate_desc(width, height).dimension == TextureDimension::D2,
        intermediate_desc(width, height).format == TextureFormat::Rgba8Unorm,
        intermediate_desc(width, height).usage.storage_binding,
        intermediate_desc(width, height).usage.texture_binding,
        !intermediate_desc(width, height).usage.render_attachment,
        !intermediate_desc(width, height).usage.copy_src && !intermediate_desc(width, height).usage.copy_dst,
{
}

/// Describes the intermediate texture that a frame of the given size is
/// rendered into.
pub fn intermediate_texture(width: u32, height: u32) -> (res: TextureDesc)
    ensures
        res == intermediate_desc(width, height),
        res.width == width,
        res.height == height,
        res.format == TextureFormat::Rgba8Unorm,
        res.usage.storage_binding,
{
    TextureDesc {
        width,
        height,
        depth_or_array_layers: 1,
        mip_level_count: 1,
        sample_count: 1,
        dimension: TextureDimension::D2,
        usage: TextureUsages {
            copy_src: false,
            copy_dst: false,
            texture_binding: true,
            storage_binding: true,
            render_attachment: false,
            storage_atomic: false,
        },
        format: TextureFormat::Rgba8Unorm,
    }
}

/// The surface configuration for a format, a size and a present mode: render
/// attachment usage, a frame latency of two, automatic alpha, no view formats.
pub open spec fn is_surface_config(c: SurfaceConfig, format: TextureFormat, width: u32, height: u32, present_mode: PresentMode) -> bool {
    &&& c.usage == surface_usage()
    &&& c.format == format
    &&& c.width == width
    &&& c.height == height
    &&& c.present_mode == present_mode
    &&& c.desired_maximum_frame_latency == 2
    &&& c.alpha_mode == CompositeAlphaMode::Auto
    &&& c.view_formats@ == Seq::<TextureFormat>::empty()
}

/// A surface configured for a format, a size and a present mode has exactly
/// that format, that size and that present mode, is used as a render
/// attachment, allows two frames of latency, composites alpha automatically
/// and has no view formats.
pub proof fn law_surface_config(c: SurfaceConfig, format: TextureFormat, width: u32, height: u32, present_mode: PresentMode)
    requires
        is_surface_config(c, format, width, height, present_mode),
    ensures
        c.width == width,
        c.height == height,
        c.format == format,
        c.present_mode == present_mode,
        c.usage.render_attachment,
        !c.usage.texture_binding && !c.usage.storage_binding && !c.usage.copy_src && !c.usage.copy_dst,
        c.desired_maximum_frame_latency == 2,
        c.alpha_mode == CompositeAlphaMode::Auto,
        c.view_formats@.len() == 0,
{
}

/// Builds the surface configuration for a format, a size and a present mode.
pub fn surface_config(format: TextureFormat, width: u32, height: u32, present_mode: PresentMode) -> (res: SurfaceConfig)
    ensures
        is_surface_config(res, format, width, height, present_mode),
        res.width == width,
        res.height == height,
        res.format == format,
        res.present_mode == present_mode,
{
    SurfaceConfig {
        usage: TextureUsages {
            copy_src: false,
            copy_dst: false,
            texture_binding: false,
            storage_binding: false,
            render_attachment: true,
            storage_atomic: false,
        },
        format,
        width,
        height,
        present_mode,
        desired_maximum_frame_latency: 2,
        alpha_mode: CompositeAlphaMode::Auto,
        view_formats: Vec::new(),
    }
}

/// A configured surface together with its intermediate texture, which always
/// has the surface's size.
pub struct SurfaceState {
    config: SurfaceConfig,
    target: TextureDesc,
}

impl SurfaceState {
    /// The surface configuration.
    pub closed spec fn config_spec(&self) -> SurfaceConfig {
        self.config
    }

    /// The intermediate texture.
    pub closed spec fn target_spec(&self) -> TextureDesc {
        self.target
    }

    /// The intermediate texture has the surface's size, and the surface's
    /// format is a presentable one.
    pub open spec fn wf(&self) -> bool {
        &&& self.target_spec() == intermediate_desc(self.config_spec().width, self.config_spec().height)
        &&& is_presentable(self.config_spec().format)
    }

    /// The surface configuration.
    pub fn config(&self) -> (res: &SurfaceConfig)
        ensures
            *res == self.config_spec(),
    {
        &self.config
    }

    /// The intermediate texture.
    pub fn target(&self) -> (res: TextureDesc)
        ensures
            res == self.target_spec(),
    {
        self.target
    }

    /// Plans a new surface: the first presentable format of those the surface
    /// supports, the given size and present mode, and an intermediate texture
    /// of that size; fails when no supported format is presentable.
    pub fn plan(formats: &Vec<TextureFormat>, width: u32, height: u32, present_mode: PresentMode) -> (res: Result<SurfaceState, RenderError>)
        ensures
            match first_presentable(formats@) {
                Some(f) => res matches Ok(s) && s.wf() && is_surface_config(s.config_spec(), f, width, height, present_mode),
                None => res matches Err(e) && e == RenderError::UnsupportedSurfaceFormat,
            },
            res matches Ok(s) ==> {
                &&& s.config_spec().width == width
                &&& s.config_spec().height == height
                &&& s.config_spec().present_mode == present_mode
                &&& s.target_spec().width == width
                &&& s.target_spec().height == height
            },
    {
        proof { lemma_first_presentable(formats@); }
        let format = match select_surface_format(formats) {
            Ok(f) => f,
            Err(e) => { return Err(e); },
        };
        let config = surface_config(format, width, height, present_mode);
        let target = intermediate_texture(width, height);
        Ok(SurfaceState { config, target })
    }

    /// The surface after a resize: the new size in its configuration and an
    /// intermediate texture of that size; everything else as before.
    pub closed spec fn resized(self, width: u32, height: u32) -> SurfaceState {
        SurfaceState {
            config: SurfaceConfig { width, height, ..self.config },
            target: intermediate_desc(width, height),
        }
    }

    /// Resizing keeps a surface well formed and changes only its size: the
    /// configuration keeps its format, usage, present mode, frame latency,
    /// alpha mode and view formats. Of two resizes the last one decides, and
    /// resizing to the present size changes nothing.
    pub proof fn law_resize(self, width: u32, height: u32, width2: u32, height2: u32)
        requires
            self.wf(),
        ensures
            self.resized(width, height).wf(),
            self.resized(width, height).config_spec().width == width,
            self.resized(width, height).config_spec().height == height,
            self.resized(width, height).config_spec().format == self.config_spec().format,
            self.resized(width, height).config_spec().usage == self.config_spec().usage,
            self.resized(width, height).config_spec().present_mode == self.config_spec().present_mode,
            self.resized(width, height).config_spec().desired_maximum_frame_latency
                == self.config_spec().desired_maximum_frame_latency,
            self.resized(width, height).config_spec().alpha_mode == self.config_spec().alpha_mode,
            self.resized(width, height).config_spec().view_formats == self.config_spec().view_formats,
            self.resized(width, height).resized(width2, height2) == self.resized(width2, height2),
            self.resized(self.config_spec().width, self.config_spec().height) == self,
    {
    }

    /// Resizes the surface: its configuration takes the new size, everything
    /// else in it stays, and the intermediate texture is replaced by one of the
    /// new size.
    pub fn resize(&mut self, width: u32, height: u32)
        requires
            old(self).wf(),
        ensures
            final(self).wf(),
            *final(self) == old(self).resized(width, height),
            final(self).config_spec().width == width,
            final(self).config_spec().height == height,
            final(self).config_spec().usage == old(self).config_spec().usage,
            final(self).config_spec().format == old(self).config_spec().format,
            final(self).config_spec().present_mode == old(self).config_spec().present_mode,
            final(self).config_spec().desired_maximum_frame_latency == old(self).config_spec().desired_maximum_frame_latency,
            final(self).config_spec().alpha_mode == old(self).config_spec().alpha_mode,
            final(self).config_spec().view_formats@ == old(self).config_spec().view_formats@,
    {
        self.config.width = width;
        self.config.height = height;
        self.target = intermediate_texture(width, height);
    }
}

} // verus!

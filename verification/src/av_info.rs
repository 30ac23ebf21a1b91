//! The audio and video parameters a core announces: pixel format, frame geometry and the
//! hardware context it asks for.
use vstd::prelude::*;
use crate::error::ErrorHandle;

verus! {

/// The pixel formats of the libretro API.
#[derive(PartialEq, Eq, Structural, Clone, Copy, Debug)]
pub enum PixelFormat {
    Rgb1555,
    Xrgb8888,
    Rgb565,
    Unknown,
}

/// The hardware contexts of the libretro API.
#[derive(PartialEq, Eq, Structural, Clone, Copy, Debug)]
pub enum HwContextType {
    NoContext,
    OpenGl,
    OpenGles2,
    OpenGlCore,
    OpenGles3,
    OpenGlesVersion,
    Vulkan,
    D3d11,
    D3d10,
    D3d12,
    D3d9,
    Dummy,
}

/// The integer part of a frame geometry as the core hands it over.
#[derive(PartialEq, Eq, Structural, Clone, Copy)]
pub struct GameGeometry {
    pub base_width: u32,
    pub base_height: u32,
    pub max_width: u32,
    pub max_height: u32,
}

/// The frame geometry the front end keeps (its aspect ratio, a float, is kept outside).
#[derive(PartialEq, Eq, Structural, Clone, Copy)]
pub struct Geometry {
    pub base_width: u32,
    pub base_height: u32,
    pub max_width: u32,
    pub max_height: u32,
}

/// The hardware rendering settings.
pub struct GraphicApi {
    pub context_type: HwContextType,
    pub fbo: Option<usize>,
    pub depth: bool,
    pub stencil: bool,
    pub bottom_left_origin: bool,
    pub major: u32,
    pub minor: u32,
    pub cache_context: bool,
    pub debug_context: bool,
}

impl GraphicApi {
    /// No hardware context, no frame buffer, every flag off.
    pub fn default() -> (r: GraphicApi)
        ensures
            r.context_type == HwContextType::NoContext,
            r.fbo is None,
            !r.depth && !r.stencil && !r.bottom_left_origin && !r.cache_context && !r.debug_context,
            r.major == 0 && r.minor == 0,
    {
        GraphicApi {
            context_type: HwContextType::NoContext,
            fbo: None,
            depth: false,
            stencil: false,
            bottom_left_origin: false,
            major: 0,
            minor: 0,
            cache_context: false,
            debug_context: false,
        }
    }

    /// The default settings with the given context.
    pub fn with(context_type: HwContextType) -> (r: GraphicApi)
        ensures
            r.context_type == context_type,
            r.fbo is None,
            !r.depth && !r.stencil && !r.bottom_left_origin && !r.cache_context && !r.debug_context,
            r.major == 0 && r.minor == 0,
    {
        GraphicApi { context_type, ..GraphicApi::default() }
    }
}

/// The video parameters.
pub struct Video {
    pub can_dupe: bool,
    pub pixel_format: PixelFormat,
    pub geometry: Geometry,
    pub graphic_api: GraphicApi,
}

/// The audio and video parameters of a running core.
pub struct AvInfo {
    pub video: Video,
}

impl AvInfo {
    /// Parameters before the core announced any: no duplicate frames, unknown pixel format,
    /// zero geometry, and the given hardware settings.
    pub fn new(graphic_api: GraphicApi) -> (r: AvInfo)
        ensures
            !r.video.can_dupe,
            r.video.pixel_format == PixelFormat::Unknown,
            r.video.geometry == (Geometry { base_width: 0, base_height: 0, max_width: 0, max_height: 0 }),
            r.video.graphic_api == graphic_api,
    {
        AvInfo {
            video: Video {
                can_dupe: false,
                pixel_format: PixelFormat::Unknown,
                geometry: Geometry { base_width: 0, base_height: 0, max_width: 0, max_height: 0 },
                graphic_api,
            },
        }
    }

    /// Takes in a new geometry; `None` stands for a null pointer from the core, which is
    /// refused.
    pub fn try_set_new_geometry(&mut self, raw_geometry: Option<GameGeometry>) -> (r: Result<(), ErrorHandle>)
        ensures
            r is Ok <==> raw_geometry is Some,
            r matches Err(e) ==> e.message@ == "nao foi possível atualiza a geometria da textura"@,
            match raw_geometry {
                Some(g) => final(self).video.geometry == (Geometry {
                    base_width: g.base_width,
                    base_height: g.base_height,
                    max_width: g.max_width,
                    max_height: g.max_height,
                }),
                None => final(self).video.geometry == old(self).video.geometry,
            },
            final(self).video.pixel_format == old(self).video.pixel_format,
            final(self).video.can_dupe == old(self).video.can_dupe,
            final(self).video.graphic_api == old(self).video.graphic_api,
    {
        match raw_geometry {
            None => Err(ErrorHandle::new("nao foi possível atualiza a geometria da textura")),
            Some(g) => {
                self.video.geometry = Geometry {
                    base_width: g.base_width,
                    base_height: g.base_height,
                    max_width: g.max_width,
                    max_height: g.max_height,
                };
                Ok(())
            },
        }
    }
}

/// The contexts the front end can draw with: OpenGL, OpenGL core, or software.
pub open spec fn supported_context(c: HwContextType) -> bool {
    c == HwContextType::OpenGlCore || c == HwContextType::OpenGl || c == HwContextType::NoContext
}

/// Whether a window can be opened for the context the core asks for.
pub fn check_context_support(context_type: HwContextType) -> (r: Result<(), ErrorHandle>)
    ensures
        r is Ok <==> supported_context(context_type),
        r matches Err(e) ==> e.message@ == "suporte para a api selecionada não está disponível"@,
{
    match context_type {
        HwContextType::OpenGlCore | HwContextType::OpenGl | HwContextType::NoContext => Ok(()),
        _ => Err(ErrorHandle::new("suporte para a api selecionada não está disponível")),
    }
}

/// OpenGL's `DEPTH24_STENCIL8`.
pub const DEPTH24_STENCIL8: u32 = 0x88F0;

/// OpenGL's `DEPTH_STENCIL_ATTACHMENT`.
pub const DEPTH_STENCIL_ATTACHMENT: u32 = 0x821A;

/// OpenGL's `DEPTH_COMPONENT24`.
pub const DEPTH_COMPONENT24: u32 = 0x81A6;

/// OpenGL's `DEPTH_ATTACHMENT`.
pub const DEPTH_ATTACHMENT: u32 = 0x8D00;

/// The render buffer to attach to the frame buffer, as (internal format, attachment): depth
/// and stencil together, depth alone, or none.
pub fn render_buffer_config(depth: bool, stencil: bool) -> (r: Option<(u32, u32)>)
    ensures
        r == (if depth && stencil {
            Some((DEPTH24_STENCIL8, DEPTH_STENCIL_ATTACHMENT))
        } else if depth {
            Some((DEPTH_COMPONENT24, DEPTH_ATTACHMENT))
        } else {
            None
        }),
{
    if depth && stencil {
        Some((DEPTH24_STENCIL8, DEPTH_STENCIL_ATTACHMENT))
    } else if depth {
        Some((DEPTH_COMPONENT24, DEPTH_ATTACHMENT))
    } else {
        None
    }
}

} // verus!

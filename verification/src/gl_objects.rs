//! The OpenGL objects the renderer owns, each known by the name OpenGL gave it, and the
//! outcome of compiling and linking shaders.
use vstd::prelude::*;
use crate::av_info::GraphicApi;
use crate::error::ErrorHandle;

verus! {

/// A frame buffer object.
pub struct FrameBuffer {
    id: u32,
}

impl FrameBuffer {
    /// The OpenGL name of this frame buffer.
    pub closed spec fn name(self) -> u32 {
        self.id
    }

    /// The frame buffer that OpenGL generated under the name `id`.
    pub fn from_id(id: u32) -> (r: FrameBuffer)
        ensures
            r.name() == id,
    {
        FrameBuffer { id }
    }

    /// Its OpenGL name.
    pub fn get_id(&self) -> (r: u32)
        ensures
            r == self.name(),
    {
        self.id
    }
}

/// A render buffer object.
pub struct RenderBuffer {
    id: u32,
}

impl RenderBuffer {
    /// The OpenGL name of this render buffer.
    pub closed spec fn name(self) -> u32 {
        self.id
    }

    /// The render buffer that OpenGL generated under the name `id`.
    pub fn from_id(id: u32) -> (r: RenderBuffer)
        ensures
            r.name() == id,
    {
        RenderBuffer { id }
    }

    /// Its OpenGL name.
    pub fn get_id(&self) -> (r: u32)
        ensures
            r == self.name(),
    {
        self.id
    }
}

/// A two-dimensional texture.
pub struct Texture2D {
    id: u32,
}

impl Texture2D {
    /// The OpenGL name of this texture.
    pub closed spec fn name(self) -> u32 {
        self.id
    }

    /// The texture that OpenGL generated under the name `id`.
    pub fn from_id(id: u32) -> (r: Texture2D)
        ensures
            r.name() == id,
    {
        Texture2D { id }
    }

    /// Its OpenGL name.
    pub fn get_id(&self) -> (r: u32)
        ensures
            r == self.name(),
    {
        self.id
    }
}

/// A compiled shader.
pub struct Shader {
    pub id: u32,
}

impl Shader {
    /// The outcome of compiling the shader named `id`: a compile status of zero is a failure
    /// reported with the compiler's log, any other status a usable shader.
    pub fn compiled(id: u32, status: i32, log: String) -> (r: Result<Shader, ErrorHandle>)
        ensures
            r is Ok <==> status != 0,
            r matches Ok(s) ==> s.id == id,
            r matches Err(e) ==> e.message@ == log@,
    {
        if status == 0 {
            Err(ErrorHandle { message: log })
        } else {
            Ok(Shader { id })
        }
    }
}

/// A linked shader program.
pub struct ShaderProgram {
    id: u32,
}

impl ShaderProgram {
    /// The OpenGL name of this program.
    pub closed spec fn name(self) -> u32 {
        self.id
    }

    /// The outcome of linking the program named `id`: a link status of zero is a failure
    /// reported with the linker's log, any other status a usable program.
    pub fn linked(id: u32, status: i32, log: String) -> (r: Result<ShaderProgram, ErrorHandle>)
        ensures
            r is Ok <==> status != 0,
            r matches Ok(p) ==> p.name() == id,
            r matches Err(e) ==> e.message@ == log@,
    {
        if status == 0 {
            Err(ErrorHandle { message: log })
        } else {
            Ok(ShaderProgram { id })
        }
    }

    /// Its OpenGL name.
    pub fn get_id(&self) -> (r: u32)
        ensures
            r == self.name(),
    {
        self.id
    }
}

/// Where the shaders read their inputs: the vertex position, the texture position and the
/// texture sampler.
#[derive(Clone, Copy)]
pub struct ShaderLocations {
    pub i_pos: i32,
    pub i_tex_pos: i32,
    pub u_tex: i32,
}

/// Everything the renderer draws with.
pub struct Render {
    program: ShaderProgram,
    texture: Texture2D,
    locations: ShaderLocations,
    vao: u32,
    vbo: u32,
    fbo: FrameBuffer,
    rbo: Option<RenderBuffer>,
}

impl Render {
    /// The frame buffer the core draws into.
    pub closed spec fn frame_buffer(self) -> FrameBuffer {
        self.fbo
    }

    /// The render buffer attached to the frame buffer, if any.
    pub closed spec fn render_buffer(self) -> Option<RenderBuffer> {
        self.rbo
    }

    /// The program the frames are drawn with.
    pub closed spec fn program(self) -> ShaderProgram {
        self.program
    }

    /// The texture each frame is copied into.
    pub closed spec fn texture(self) -> Texture2D {
        self.texture
    }

    /// Where the program reads its inputs.
    pub closed spec fn locations(self) -> ShaderLocations {
        self.locations
    }

    /// The OpenGL name of the vertex array.
    pub closed spec fn vertex_array(self) -> u32 {
        self.vao
    }

    /// The OpenGL name of the vertex buffer.
    pub closed spec fn vertex_buffer(self) -> u32 {
        self.vbo
    }

    /// Puts the renderer together and records its frame buffer in the hardware settings, so
    /// that the core draws into it. A render buffer is attached exactly when the core asked
    /// for a depth buffer.
    pub fn new(
        program: ShaderProgram,
        texture: Texture2D,
        locations: ShaderLocations,
        vao: u32,
        vbo: u32,
        fbo: FrameBuffer,
        rbo: Option<RenderBuffer>,
        graphic_api: &mut GraphicApi,
    ) -> (r: Render)
        requires
            rbo is Some <==> old(graphic_api).depth,
        ensures
            final(graphic_api).fbo == Some(fbo.name() as usize),
            final(graphic_api).context_type == old(graphic_api).context_type,
            final(graphic_api).depth == old(graphic_api).depth,
            final(graphic_api).stencil == old(graphic_api).stencil,
            final(graphic_api).bottom_left_origin == old(graphic_api).bottom_left_origin,
            final(graphic_api).major == old(graphic_api).major,
            final(graphic_api).minor == old(graphic_api).minor,
            final(graphic_api).cache_context == old(graphic_api).cache_context,
            final(graphic_api).debug_context == old(graphic_api).debug_context,
            r.frame_buffer() == fbo,
            r.render_buffer() == rbo,
            r.program() == program,
            r.texture() == texture,
            r.locations() == locations,
            r.vertex_array() == vao,
            r.vertex_buffer() == vbo,
    {
        graphic_api.fbo = Some(fbo.get_id() as usize);
        Render { program, texture, locations, vao, vbo, fbo, rbo }
    }

    /// The OpenGL name of the frame buffer the core draws into.
    pub fn frame_buffer_id(&self) -> (r: u32)
        ensures
            r == self.frame_buffer().name(),
    {
        self.fbo.get_id()
    }
}

} // verus!

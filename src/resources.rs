use vstd::prelude::*;

verus! {

/// Pixel format `GL_RGBA`.
pub const RGBA: u32 = 0x1908;

/// Pixel type `GL_UNSIGNED_BYTE`.
pub const UNSIGNED_BYTE: u32 = 0x1401;

/// Internal format `GL_RGBA32F`.
pub const RGBA32F: u32 = 0x8814;

/// Pixel type `GL_FLOAT`.
pub const FLOAT: u32 = 0x1406;

/// Buffer target `GL_ARRAY_BUFFER`.
pub const ARRAY_BUFFER: u32 = 0x8892;

/// A 2D texture, known by its handle.
#[derive(Clone, Copy, Debug, PartialEq, Eq, Structural)]
pub struct Texture2D {
    pub id: u32,
}

/// Size and format of a 2D texture to allocate.
#[derive(Clone, Copy, Debug)]
pub struct TextureParameter {
    pub screen_size: (i32, i32),
    pub internal_format: u32,
    pub format_type: u32,
}

impl TextureParameter {
    /// Four 32-bit float channels per texel, the format of the passes' outputs.
    pub fn new_float_parameter(screen_size: (i32, i32)) -> (r: Self)
        ensures
            r.screen_size == screen_size,
            r.internal_format == RGBA32F,
            r.format_type == FLOAT,
    {
        TextureParameter { screen_size, internal_format: RGBA32F, format_type: FLOAT }
    }

    /// Four 8-bit channels per texel.
    pub fn new_unsigned_byte_parameter(screen_size: (i32, i32)) -> (r: Self)
        ensures
            r.screen_size == screen_size,
            r.internal_format == RGBA,
            r.format_type == UNSIGNED_BYTE,
    {
        TextureParameter { screen_size, internal_format: RGBA, format_type: UNSIGNED_BYTE }
    }
}

/// An off-screen framebuffer whose sole colour attachment is `texture`.
#[derive(Clone, Copy, Debug, PartialEq, Eq, Structural)]
pub struct FBO {
    pub fbo_id: u32,
    pub texture: Texture2D,
}

impl FBO {
    pub fn new(fbo_id: u32, texture: Texture2D) -> (r: Self)
        ensures
            r.fbo_id == fbo_id,
            r.texture == texture,
    {
        FBO { fbo_id, texture }
    }
}

/// A vertex buffer and the number of elements last uploaded to it.
#[derive(Clone, Copy, Debug, PartialEq, Eq, Structural)]
pub struct VBO {
    pub id: u32,
    pub target: u32,
    pub nbr_of_vertices: u32,
}

impl VBO {
    /// A freshly generated, empty buffer.
    pub fn new(id: u32, target: u32) -> (r: Self)
        ensures
            r.id == id,
            r.target == target,
            r.nbr_of_vertices == 0,
    {
        VBO { id, target, nbr_of_vertices: 0 }
    }

    /// Records an upload of `len` elements; an upload replaces the whole content, so the
    /// count is replaced too. `None` when the count does not fit the draw call's range.
    pub fn set_data(&mut self, len: usize) -> (r: Option<u32>)
        ensures
            len <= u32::MAX ==> r == Some(len as u32) && final(self).nbr_of_vertices == len,
            len > u32::MAX ==> r.is_none() && *final(self) == *old(self),
            final(self).id == old(self).id,
            final(self).target == old(self).target,
    {
        if len <= u32::MAX as usize {
            self.nbr_of_vertices = len as u32;
            Some(len as u32)
        } else {
            None
        }
    }
}

/// A vertex array together with the buffer it reads.
#[derive(Clone, Copy, Debug, PartialEq, Eq, Structural)]
pub struct VAO {
    pub id: u32,
    pub vbo: VBO,
}

impl VAO {
    pub fn new(id: u32, vbo: VBO) -> (r: Self)
        ensures
            r.id == id,
            r.vbo == vbo,
    {
        VAO { id, vbo }
    }
}

} // verus!

use vstd::prelude::*;

use crate::resources::VAO;
use crate::shader::Shader;

verus! {

/// Number of vertices of the full-screen quad: two triangles.
pub const QUAD_VERTEX_COUNT: u32 = 6;

/// The kind of texture a handle names.
#[derive(Clone, Copy, Debug, PartialEq, Eq, Structural)]
pub enum TextureTarget {
    Texture2D,
    Texture3D,
}

/// A per-frame value supplied by the camera and the clock.
#[derive(Clone, Copy, Debug, PartialEq, Eq, Structural)]
pub enum FrameValue {
    /// Inverse of the camera's view-projection matrix.
    InvertMvp,
    /// Camera eye position.
    CameraPosition,
    /// View-projection matrix of the previous frame.
    PreviousMvp,
    /// Seconds since start.
    Time,
}

/// The uniforms that the passes' shaders declare.
#[derive(Clone, Copy, Debug, PartialEq, Eq, Hash, Structural)]
pub enum UniformName {
    InvertMvp,
    CameraPosition,
    WorldDataTexture,
    PreviousMvp,
    Time,
    PreviousLightingTexture,
    PreviousPositionTexture,
    CurrentPositionTexture,
    CurrentLightingTexture,
}

pub open spec fn uniform_text(n: UniformName) -> Seq<char> {
    match n {
        UniformName::InvertMvp => "invert_mvp"@,
        UniformName::CameraPosition => "camera_position"@,
        UniformName::WorldDataTexture => "world_data_texture"@,
        UniformName::PreviousMvp => "previous_mvp"@,
        UniformName::Time => "time"@,
        UniformName::PreviousLightingTexture => "previous_lighting_texture"@,
        UniformName::PreviousPositionTexture => "previous_position_texture"@,
        UniformName::CurrentPositionTexture => "current_position_texture"@,
        UniformName::CurrentLightingTexture => "current_lighting_texture"@,
    }
}

impl UniformName {
    /// The identifier that the shader sources use.
    pub fn as_str(&self) -> (r: &'static str)
        ensures
            r@ == uniform_text(*self),
    {
        proof {
            reveal_strlit("invert_mvp");
            reveal_strlit("camera_position");
            reveal_strlit("world_data_texture");
            reveal_strlit("previous_mvp");
            reveal_strlit("time");
            reveal_strlit("previous_lighting_texture");
            reveal_strlit("previous_position_texture");
            reveal_strlit("current_position_texture");
            reveal_strlit("current_lighting_texture");
        }
        match self {
            UniformName::InvertMvp => "invert_mvp",
            UniformName::CameraPosition => "camera_position",
            UniformName::WorldDataTexture => "world_data_texture",
            UniformName::PreviousMvp => "previous_mvp",
            UniformName::Time => "time",
            UniformName::PreviousLightingTexture => "previous_lighting_texture",
            UniformName::PreviousPositionTexture => "previous_position_texture",
            UniformName::CurrentPositionTexture => "current_position_texture",
            UniformName::CurrentLightingTexture => "current_lighting_texture",
        }
    }
}

/// Where a uniform's value comes from.
#[derive(Clone, Copy, Debug, PartialEq, Eq, Structural)]
pub enum BindingSource {
    /// A value of the current frame.
    Frame(FrameValue),
    /// A texture bound to a texture unit and sampled through it.
    Texture { unit: u32, target: TextureTarget, id: u32 },
}

/// One entry of a pass's declarative uniform wiring.
#[derive(Clone, Copy, Debug, PartialEq, Eq, Structural)]
pub struct UniformBinding {
    pub name: UniformName,
    pub source: BindingSource,
}

/// What a uniform is set to.
#[derive(Clone, Copy, Debug, PartialEq, Eq, Structural)]
pub enum UniformValue {
    Frame(FrameValue),
    /// The index of the texture unit to sample.
    Sampler(u32),
}

/// An off-screen destination: a framebuffer and the texture it renders into.
#[derive(Clone, Copy, Debug, PartialEq, Eq, Structural)]
pub struct RenderTarget {
    pub fbo: u32,
    pub texture: u32,
}

/// One step of a frame, in the order the GPU must see them. `SetUniform` and `Draw` activate
/// `program` (and its render target, if any) for their duration and restore the defaults.
#[derive(Clone, Copy, Debug, PartialEq, Eq, Structural)]
pub enum GlCommand {
    /// Copies the whole of one 2D texture into another of the same size.
    CopyTexture { src: u32, dst: u32, width: i32, height: i32 },
    /// Makes a texture unit the active one.
    ActiveTexture(u32),
    /// Binds a texture to the active unit.
    BindTexture { target: TextureTarget, id: u32 },
    /// Looks up a uniform of `program` by name and sets it; a name the program lacks is skipped.
    SetUniform { program: u32, name: UniformName, value: UniformValue },
    Viewport { width: i32, height: i32 },
    /// Draws `vertex_count` vertices of a vertex array as triangles.
    Draw { program: u32, output: Option<RenderTarget>, vao: u32, vertex_count: u32 },
}

/// The commands that wire one uniform of `program`.
pub open spec fn binding_commands(program: u32, b: UniformBinding) -> Seq<GlCommand> {
    match b.source {
        BindingSource::Frame(v) => seq![
            GlCommand::SetUniform { program, name: b.name, value: UniformValue::Frame(v) },
        ],
        BindingSource::Texture { unit, target, id } => seq![
            GlCommand::ActiveTexture(unit),
            GlCommand::BindTexture { target, id },
            GlCommand::SetUniform { program, name: b.name, value: UniformValue::Sampler(unit) },
        ],
    }
}

/// The commands that wire every uniform of a descriptor, in its order.
pub open spec fn bindings_commands(program: u32, bs: Seq<UniformBinding>) -> Seq<GlCommand>
    decreases bs.len(),
{
    if bs.len() == 0 {
        seq![]
    } else {
        bindings_commands(program, bs.drop_last()) + binding_commands(program, bs.last())
    }
}

pub open spec fn target_of(shader: Shader) -> Option<RenderTarget> {
    match shader.fbo {
        Some(f) => Some(RenderTarget { fbo: f.fbo_id, texture: f.texture.id }),
        None => None,
    }
}

pub open spec fn draw_command(m: Mesh) -> GlCommand {
    GlCommand::Draw {
        program: m.shader.id,
        output: target_of(m.shader),
        vao: m.vao.id,
        vertex_count: m.vao.vbo.nbr_of_vertices,
    }
}

/// A whole pass: its uniform wiring, unit 0 made active again, the viewport, the draw.
pub open spec fn pass_commands(m: Mesh, bs: Seq<UniformBinding>, width: i32, height: i32) -> Seq<
    GlCommand,
> {
    bindings_commands(m.shader.id, bs) + seq![
        GlCommand::ActiveTexture(0),
        GlCommand::Viewport { width, height },
        draw_command(m),
    ]
}

/// One render pass: a shader program drawing the full-screen quad.
pub struct Mesh {
    pub shader: Shader,
    pub vao: VAO,
}

impl Mesh {
    /// A pass drawing the full-screen quad held by `vao`.
    pub fn new(shader: Shader, vao: VAO) -> (r: Self)
        requires
            vao.vbo.nbr_of_vertices == QUAD_VERTEX_COUNT,
        ensures
            r.shader == shader,
            r.vao == vao,
    {
        Mesh { shader, vao }
    }

    /// Where this pass renders: its own framebuffer, or `None` for the default one.
    pub fn render_target(&self) -> (r: Option<RenderTarget>)
        ensures
            r == target_of(self.shader),
    {
        match &self.shader.fbo {
            Some(f) => Some(RenderTarget { fbo: f.fbo_id, texture: f.texture.id }),
            None => None,
        }
    }

    /// Draws the quad with this pass's program into its target.
    pub fn draw(&self) -> (r: GlCommand)
        ensures
            r == draw_command(*self),
    {
        GlCommand::Draw {
            program: self.shader.id,
            output: self.render_target(),
            vao: self.vao.id,
            vertex_count: self.vao.vbo.nbr_of_vertices,
        }
    }

    /// Sets a uniform of this pass's program to a value of the current frame.
    pub fn send_uniform(&self, name: UniformName, value: FrameValue) -> (r: GlCommand)
        ensures
            r == (GlCommand::SetUniform {
                program: self.shader.id,
                name,
                value: UniformValue::Frame(value),
            }),
    {
        GlCommand::SetUniform { program: self.shader.id, name, value: UniformValue::Frame(value) }
    }

    /// The commands of a whole pass wired by the descriptor `bindings`.
    pub fn pass(&self, bindings: &Vec<UniformBinding>, width: i32, height: i32) -> (r: Vec<
        GlCommand,
    >)
        ensures
            r@ == pass_commands(*self, bindings@, width, height),
    {
        let program = self.shader.id;
        let mut out: Vec<GlCommand> = Vec::new();
        let mut i: usize = 0;
        while i < bindings.len()
            invariant
                0 <= i <= bindings@.len(),
                program == self.shader.id,
                out@ == bindings_commands(program, bindings@.take(i as int)),
            decreases bindings@.len() - i,
        {
            let b = bindings[i];
            let ghost before = out@;
            match b.source {
                BindingSource::Frame(v) => {
                    out.push(self.send_uniform(b.name, v));
                },
                BindingSource::Texture { unit, target, id } => {
                    out.push(GlCommand::ActiveTexture(unit));
                    out.push(GlCommand::BindTexture { target, id });
                    out.push(
                        GlCommand::SetUniform {
                            program,
                            name: b.name,
                            value: UniformValue::Sampler(unit),
                        },
                    );
                },
            }
            assert(bindings@.take(i + 1).drop_last() =~= bindings@.take(i as int));
            assert(out@ =~= before + binding_commands(program, b));
            i += 1;
        }
        assert(bindings@.take(bindings@.len() as int) =~= bindings@);
        out.push(GlCommand::ActiveTexture(0));
        out.push(GlCommand::Viewport { width, height });
        out.push(self.draw());
        assert(out@ =~= pass_commands(*self, bindings@, width, height));
        out
    }
}

} // verus!

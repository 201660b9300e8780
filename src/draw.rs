use vstd::prelude::*;

use crate::mesh::{
    pass_commands, BindingSource, FrameValue, GlCommand, Mesh, TextureTarget, UniformBinding,
    UniformName,
};
use crate::resources::Texture2D;
use crate::shader::ShaderError;
use crate::world::WorldData;

verus! {

/// The three passes of a frame, in drawing order.
#[derive(Clone, Copy, Debug, PartialEq, Eq, Structural)]
pub enum Pass {
    /// Resolves camera rays against the volume into a position buffer.
    Raymarching,
    /// Accumulates lighting from the current and the previous frame.
    Lighting,
    /// Composites the final image into the default framebuffer.
    Filter,
}

impl Pass {
    /// The name that the pass's shader sources are filed under.
    pub fn name(&self) -> (r: &'static str)
        ensures
            r@ == pass_name(*self),
    {
        proof {
            reveal_strlit("raymarching");
            reveal_strlit("lighting");
            reveal_strlit("filter");
        }
        match self {
            Pass::Raymarching => "raymarching",
            Pass::Lighting => "lighting",
            Pass::Filter => "filter",
        }
    }

    /// Whether the pass renders into a framebuffer of its own.
    pub fn has_framebuffer(&self) -> (r: bool)
        ensures
            r == !(*self is Filter),
    {
        !matches!(self, Pass::Filter)
    }
}

pub open spec fn pass_name(p: Pass) -> Seq<char> {
    match p {
        Pass::Raymarching => "raymarching"@,
        Pass::Lighting => "lighting"@,
        Pass::Filter => "filter"@,
    }
}

pub open spec fn frame_binding(name: UniformName, v: FrameValue) -> UniformBinding {
    UniformBinding { name, source: BindingSource::Frame(v) }
}

pub open spec fn texture_binding(name: UniformName, unit: u32, target: TextureTarget, id: u32) -> UniformBinding {
    UniformBinding { name, source: BindingSource::Texture { unit, target, id } }
}

/// Owns the three passes and the two textures that keep the previous frame's outputs, and
/// sequences a frame.
pub struct Drawer {
    raymarching_quad: Option<Mesh>,
    previous_position_texture: Option<Texture2D>,
    previous_lighting_texture: Option<Texture2D>,
    lighting_quad: Option<Mesh>,
    filter_quad: Option<Mesh>,
}

impl Drawer {
    pub closed spec fn raymarching(&self) -> Option<Mesh> {
        self.raymarching_quad
    }

    pub closed spec fn lighting(&self) -> Option<Mesh> {
        self.lighting_quad
    }

    pub closed spec fn filter(&self) -> Option<Mesh> {
        self.filter_quad
    }

    pub closed spec fn previous_position(&self) -> Option<Texture2D> {
        self.previous_position_texture
    }

    pub closed spec fn previous_lighting(&self) -> Option<Texture2D> {
        self.previous_lighting_texture
    }

    /// Every pass and texture is present, the first two passes render off-screen and the last
    /// one to the default framebuffer.
    pub open spec fn is_loaded(&self) -> bool {
        &&& self.raymarching() is Some
        &&& self.lighting() is Some
        &&& self.filter() is Some
        &&& self.previous_position() is Some
        &&& self.previous_lighting() is Some
        &&& self.raymarching()->0.shader.fbo is Some
        &&& self.lighting()->0.shader.fbo is Some
        &&& self.filter()->0.shader.fbo is None
    }

    /// The texture the raymarching pass writes positions into.
    pub open spec fn position_output(&self) -> u32 {
        self.raymarching()->0.shader.fbo->0.texture.id
    }

    /// The texture the lighting pass writes into.
    pub open spec fn lighting_output(&self) -> u32 {
        self.lighting()->0.shader.fbo->0.texture.id
    }

    pub open spec fn mesh_of(&self, pass: Pass) -> Option<Mesh> {
        match pass {
            Pass::Raymarching => self.raymarching(),
            Pass::Lighting => self.lighting(),
            Pass::Filter => self.filter(),
        }
    }

    /// Raymarching wiring: camera matrices and the volume on unit 1.
    pub open spec fn pass_1_bindings(&self, world_texture: u32) -> Seq<UniformBinding> {
        seq![
            frame_binding(UniformName::InvertMvp, FrameValue::InvertMvp),
            frame_binding(UniformName::CameraPosition, FrameValue::CameraPosition),
            texture_binding(UniformName::WorldDataTexture, 1, TextureTarget::Texture3D, world_texture),
        ]
    }

    /// Lighting wiring: previous lighting on unit 1, previous positions on unit 2, current
    /// positions on unit 3.
    pub open spec fn pass_2_bindings(&self) -> Seq<UniformBinding> {
        seq![
            frame_binding(UniformName::PreviousMvp, FrameValue::PreviousMvp),
            frame_binding(UniformName::Time, FrameValue::Time),
            texture_binding(
                UniformName::PreviousLightingTexture,
                1,
                TextureTarget::Texture2D,
                self.previous_lighting()->0.id,
            ),
            texture_binding(
                UniformName::PreviousPositionTexture,
                2,
                TextureTarget::Texture2D,
                self.previous_position()->0.id,
            ),
            texture_binding(
                UniformName::CurrentPositionTexture,
                3,
                TextureTarget::Texture2D,
                self.position_output(),
            ),
        ]
    }

    /// Filter wiring: the volume on unit 1, current lighting on unit 2, current positions on
    /// unit 3.
    pub open spec fn pass_3_bindings(&self, world_texture: u32) -> Seq<UniformBinding> {
        seq![
            frame_binding(UniformName::Time, FrameValue::Time),
            texture_binding(UniformName::WorldDataTexture, 1, TextureTarget::Texture3D, world_texture),
            texture_binding(
                UniformName::CurrentLightingTexture,
                2,
                TextureTarget::Texture2D,
                self.lighting_output(),
            ),
            texture_binding(
                UniformName::CurrentPositionTexture,
                3,
                TextureTarget::Texture2D,
                self.position_output(),
            ),
        ]
    }

    /// The frame boundary: the last frame's outputs become the "previous" textures.
    pub open spec fn snapshot_commands(&self, width: i32, height: i32) -> Seq<GlCommand> {
        seq![
            GlCommand::CopyTexture {
                src: self.position_output(),
                dst: self.previous_position()->0.id,
                width,
                height,
            },
            GlCommand::CopyTexture {
                src: self.lighting_output(),
                dst: self.previous_lighting()->0.id,
                width,
                height,
            },
        ]
    }

    /// A whole frame: the snapshot, then the three passes in order.
    pub open spec fn frame_commands(&self, width: i32, height: i32, world_texture: u32) -> Seq<
        GlCommand,
    > {
        self.snapshot_commands(width, height) + pass_commands(
            self.raymarching()->0,
            self.pass_1_bindings(world_texture),
            width,
            height,
        ) + pass_commands(self.lighting()->0, self.pass_2_bindings(), width, height)
            + pass_commands(self.filter()->0, self.pass_3_bindings(world_texture), width, height)
    }

    /// A drawer with nothing loaded yet.
    pub fn new() -> (r: Self)
        ensures
            r.raymarching() is None,
            r.lighting() is None,
            r.filter() is None,
            r.previous_position() is None,
            r.previous_lighting() is None,
    {
        Drawer {
            raymarching_quad: None,
            previous_position_texture: None,
            previous_lighting_texture: None,
            lighting_quad: None,
            filter_quad: None,
        }
    }

    /// Takes ownership of the three passes and the two previous-frame textures.
    pub fn load_content(
        &mut self,
        raymarching: Mesh,
        lighting: Mesh,
        filter: Mesh,
        previous_position: Texture2D,
        previous_lighting: Texture2D,
    )
        requires
            raymarching.shader.fbo is Some,
            lighting.shader.fbo is Some,
            filter.shader.fbo is None,
        ensures
            final(self).is_loaded(),
            final(self).raymarching() == Some(raymarching),
            final(self).lighting() == Some(lighting),
            final(self).filter() == Some(filter),
            final(self).previous_position() == Some(previous_position),
            final(self).previous_lighting() == Some(previous_lighting),
    {
        self.raymarching_quad = Some(raymarching);
        self.lighting_quad = Some(lighting);
        self.filter_quad = Some(filter);
        self.previous_position_texture = Some(previous_position);
        self.previous_lighting_texture = Some(previous_lighting);
    }

    /// Whether every pass and texture is in place, so that a frame can be drawn.
    pub fn is_ready(&self) -> (r: bool)
        ensures
            r == self.is_loaded(),
    {
        match (&self.raymarching_quad, &self.lighting_quad, &self.filter_quad) {
            (Some(ray), Some(light), Some(filter)) => ray.shader.fbo.is_some()
                && light.shader.fbo.is_some() && filter.shader.fbo.is_none()
                && self.previous_position_texture.is_some()
                && self.previous_lighting_texture.is_some(),
            _ => false,
        }
    }

    /// The passes whose shaders must be rebuilt this frame: all three when a reload was
    /// requested, none otherwise.
    pub fn update(&self, reload_requested: bool) -> (r: Vec<Pass>)
        ensures
            reload_requested ==> r@ == seq![Pass::Raymarching, Pass::Lighting, Pass::Filter],
            !reload_requested ==> r@.len() == 0,
    {
        let mut r: Vec<Pass> = Vec::new();
        if reload_requested {
            r.push(Pass::Raymarching);
            r.push(Pass::Lighting);
            r.push(Pass::Filter);
        }
        r
    }

    /// Whether the pass's shader has a working program; a failed build of a pass without one
    /// is fatal.
    pub fn has_program(&self, pass: Pass) -> (r: bool)
        requires
            self.is_loaded(),
        ensures
            r == (self.mesh_of(pass)->0.shader.id != 0),
    {
        match pass {
            Pass::Raymarching => self.raymarching_quad.as_ref().unwrap().shader.has_program(),
            Pass::Lighting => self.lighting_quad.as_ref().unwrap().shader.has_program(),
            Pass::Filter => self.filter_quad.as_ref().unwrap().shader.has_program(),
        }
    }

    /// The handle of the pass's current program, 0 if none was linked yet.
    pub fn program_id(&self, pass: Pass) -> (r: u32)
        requires
            self.is_loaded(),
        ensures
            r == self.mesh_of(pass)->0.shader.id,
    {
        match pass {
            Pass::Raymarching => self.raymarching_quad.as_ref().unwrap().shader.id,
            Pass::Lighting => self.lighting_quad.as_ref().unwrap().shader.id,
            Pass::Filter => self.filter_quad.as_ref().unwrap().shader.id,
        }
    }

    /// Installs the outcome of rebuilding one pass's program. Only that program changes, and
    /// only on success; the pass's geometry and framebuffer are kept.
    pub fn compile(&mut self, pass: Pass, program: Result<u32, ShaderError>) -> (r: Result<
        u32,
        ShaderError,
    >)
        requires
            old(self).is_loaded(),
        ensures
            final(self).is_loaded(),
            final(self).previous_position() == old(self).previous_position(),
            final(self).previous_lighting() == old(self).previous_lighting(),
            forall|p: Pass| p != pass ==> #[trigger] final(self).mesh_of(p) == old(self).mesh_of(p),
            final(self).mesh_of(pass)->0.vao == old(self).mesh_of(pass)->0.vao,
            final(self).mesh_of(pass)->0.shader.fbo == old(self).mesh_of(pass)->0.shader.fbo,
            final(self).mesh_of(pass)->0.shader.file_name@ == old(self).mesh_of(
                pass,
            )->0.shader.file_name@,
            match program {
                Ok(p) => final(self).mesh_of(pass)->0.shader.id == p && r == Ok::<u32, ShaderError>(p),
                Err(e) => final(self).mesh_of(pass)->0.shader.id == old(self).mesh_of(pass)->0.shader.id
                    && r == Err::<u32, ShaderError>(e),
            },
    {
        match pass {
            Pass::Raymarching => self.raymarching_quad.as_mut().unwrap().shader.compile(program),
            Pass::Lighting => self.lighting_quad.as_mut().unwrap().shader.compile(program),
            Pass::Filter => self.filter_quad.as_mut().unwrap().shader.compile(program),
        }
    }

    /// Wiring of the raymarching pass.
    pub fn setup_uniforms_draw_pass_1(&self, world_texture: u32) -> (r: Vec<UniformBinding>)
        ensures
            r@ == self.pass_1_bindings(world_texture),
    {
        let mut r: Vec<UniformBinding> = Vec::new();
        r.push(
            UniformBinding {
                name: UniformName::InvertMvp,
                source: BindingSource::Frame(FrameValue::InvertMvp),
            },
        );
        r.push(
            UniformBinding {
                name: UniformName::CameraPosition,
                source: BindingSource::Frame(FrameValue::CameraPosition),
            },
        );
        r.push(
            UniformBinding {
                name: UniformName::WorldDataTexture,
                source: BindingSource::Texture {
                    unit: 1,
                    target: TextureTarget::Texture3D,
                    id: world_texture,
                },
            },
        );
        assert(r@ =~= self.pass_1_bindings(world_texture));
        r
    }

    /// Wiring of the lighting pass.
    pub fn setup_uniforms_draw_pass_2(&self) -> (r: Vec<UniformBinding>)
        requires
            self.is_loaded(),
        ensures
            r@ == self.pass_2_bindings(),
    {
        let previous_lighting = self.previous_lighting_texture.as_ref().unwrap().id;
        let previous_position = self.previous_position_texture.as_ref().unwrap().id;
        let current_position = self.position_texture();
        let mut r: Vec<UniformBinding> = Vec::new();
        r.push(
            UniformBinding {
                name: UniformName::PreviousMvp,
                source: BindingSource::Frame(FrameValue::PreviousMvp),
            },
        );
        r.push(
            UniformBinding { name: UniformName::Time, source: BindingSource::Frame(FrameValue::Time) },
        );
        r.push(
            UniformBinding {
                name: UniformName::PreviousLightingTexture,
                source: BindingSource::Texture {
                    unit: 1,
                    target: TextureTarget::Texture2D,
                    id: previous_lighting,
                },
            },
        );
        r.push(
            UniformBinding {
                name: UniformName::PreviousPositionTexture,
                source: BindingSource::Texture {
                    unit: 2,
                    target: TextureTarget::Texture2D,
                    id: previous_position,
                },
            },
        );
        r.push(
            UniformBinding {
                name: UniformName::CurrentPositionTexture,
                source: BindingSource::Texture {
                    unit: 3,
                    target: TextureTarget::Texture2D,
                    id: current_position,
                },
            },
        );
        assert(r@ =~= self.pass_2_bindings());
        r
    }

    /// Wiring of the filter pass.
    pub fn setup_uniforms_draw_pass_3(&self, world_texture: u32) -> (r: Vec<UniformBinding>)
        requires
            self.is_loaded(),
        ensures
            r@ == self.pass_3_bindings(world_texture),
    {
        let current_lighting = self.lighting_texture();
        let current_position = self.position_texture();
        let mut r: Vec<UniformBinding> = Vec::new();
        r.push(
            UniformBinding { name: UniformName::Time, source: BindingSource::Frame(FrameValue::Time) },
        );
        r.push(
            UniformBinding {
                name: UniformName::WorldDataTexture,
                source: BindingSource::Texture {
                    unit: 1,
                    target: TextureTarget::Texture3D,
                    id: world_texture,
                },
            },
        );
        r.push(
            UniformBinding {
                name: UniformName::CurrentLightingTexture,
                source: BindingSource::Texture {
                    unit: 2,
                    target: TextureTarget::Texture2D,
                    id: current_lighting,
                },
            },
        );
        r.push(
            UniformBinding {
                name: UniformName::CurrentPositionTexture,
                source: BindingSource::Texture {
                    unit: 3,
                    target: TextureTarget::Texture2D,
                    id: current_position,
                },
            },
        );
        assert(r@ =~= self.pass_3_bindings(world_texture));
        r
    }

    /// The texture the raymarching pass renders into.
    pub fn position_texture(&self) -> (r: u32)
        requires
            self.is_loaded(),
        ensures
            r == self.position_output(),
    {
        self.raymarching_quad.as_ref().unwrap().shader.fbo.as_ref().unwrap().texture.id
    }

    /// The texture the lighting pass renders into.
    pub fn lighting_texture(&self) -> (r: u32)
        requires
            self.is_loaded(),
        ensures
            r == self.lighting_output(),
    {
        self.lighting_quad.as_ref().unwrap().shader.fbo.as_ref().unwrap().texture.id
    }

    /// Copies this frame's outputs into the previous-frame textures.
    pub fn snapshot(&self, width: i32, height: i32) -> (r: Vec<GlCommand>)
        requires
            self.is_loaded(),
        ensures
            r@ == self.snapshot_commands(width, height),
    {
        let mut r: Vec<GlCommand> = Vec::new();
        r.push(
            GlCommand::CopyTexture {
                src: self.position_texture(),
                dst: self.previous_position_texture.as_ref().unwrap().id,
                width,
                height,
            },
        );
        r.push(
            GlCommand::CopyTexture {
                src: self.lighting_texture(),
                dst: self.previous_lighting_texture.as_ref().unwrap().id,
                width,
                height,
            },
        );
        assert(r@ =~= self.snapshot_commands(width, height));
        r
    }

    /// The raymarching pass.
    pub fn draw_pass_1(&self, width: i32, height: i32, world_texture: u32) -> (r: Vec<GlCommand>)
        requires
            self.is_loaded(),
        ensures
            r@ == pass_commands(self.raymarching()->0, self.pass_1_bindings(world_texture), width, height),
    {
        let bindings = self.setup_uniforms_draw_pass_1(world_texture);
        self.raymarching_quad.as_ref().unwrap().pass(&bindings, width, height)
    }

    /// The lighting pass.
    pub fn draw_pass_2(&self, width: i32, height: i32) -> (r: Vec<GlCommand>)
        requires
            self.is_loaded(),
        ensures
            r@ == pass_commands(self.lighting()->0, self.pass_2_bindings(), width, height),
    {
        let bindings = self.setup_uniforms_draw_pass_2();
        self.lighting_quad.as_ref().unwrap().pass(&bindings, width, height)
    }

    /// The filter pass.
    pub fn draw_pass_3(&self, width: i32, height: i32, world_texture: u32) -> (r: Vec<GlCommand>)
        requires
            self.is_loaded(),
        ensures
            r@ == pass_commands(self.filter()->0, self.pass_3_bindings(world_texture), width, height),
    {
        let bindings = self.setup_uniforms_draw_pass_3(world_texture);
        self.filter_quad.as_ref().unwrap().pass(&bindings, width, height)
    }

    /// Every command of one frame, for a drawable of `width` by `height` pixels.
    pub fn draw(&self, width: i32, height: i32, world_data: &WorldData) -> (r: Vec<GlCommand>)
        requires
            self.is_loaded(),
        ensures
            r@ == self.frame_commands(width, height, world_data.texture_state().id()),
    {
        let world_texture = world_data.texture().texture_id();
        let mut r = self.snapshot(width, height);
        let mut raymarching_pass = self.draw_pass_1(width, height, world_texture);
        let mut lighting_pass = self.draw_pass_2(width, height);
        let mut filter_pass = self.draw_pass_3(width, height, world_texture);
        r.append(&mut raymarching_pass);
        r.append(&mut lighting_pass);
        r.append(&mut filter_pass);
        r
    }
}

} // verus!

use std::collections::HashMap;

use voxel_render::{
    BindingSource, Drawer, FrameValue, GlCommand, Mesh, Pass, RenderTarget, Shader,
    ShaderError, Texture2D, TextureParameter, TextureTarget, UniformName, UniformValue, WorldData,
    FBO, QUAD_VERTEX_COUNT, VAO, VBO,
};

const RAY_PROGRAM: u32 = 10;
const LIGHT_PROGRAM: u32 = 11;
const FILTER_PROGRAM: u32 = 12;
const RAY_OUT: u32 = 21;
const LIGHT_OUT: u32 = 23;
const PREV_POS: u32 = 30;
const PREV_LIGHT: u32 = 31;
const WORLD_TEX: u32 = 40;

fn mesh(name: &str, program: u32, fbo: Option<FBO>, vao: u32) -> Mesh {
    let mut shader = match fbo {
        Some(f) => Shader::new_with_fbo(name.to_string(), f),
        None => Shader::new_without_fbo(name.to_string()),
    };
    shader.compile(Ok(program)).unwrap();
    let mut vbo = VBO::new(vao + 100, voxel_render::resources::ARRAY_BUFFER);
    assert_eq!(vbo.set_data(6), Some(6));
    Mesh::new(shader, VAO::new(vao, vbo))
}

fn loaded_drawer() -> Drawer {
    let mut d = Drawer::new();
    d.load_content(
        mesh("raymarching", RAY_PROGRAM, Some(FBO::new(20, Texture2D { id: RAY_OUT })), 1),
        mesh("lighting", LIGHT_PROGRAM, Some(FBO::new(22, Texture2D { id: LIGHT_OUT })), 2),
        mesh("filter", FILTER_PROGRAM, None, 3),
        Texture2D { id: PREV_POS },
        Texture2D { id: PREV_LIGHT },
    );
    d
}

fn world() -> WorldData {
    let mut w = WorldData::new();
    w.set_texture_id(WORLD_TEX);
    w
}

/// Runs commands against texture contents only: each draw stamps its output texture with a
/// fresh marker and records, per sampler uniform, the marker of the texture it samples.
struct Recorder {
    contents: HashMap<u32, u64>,
    active_unit: u32,
    units: HashMap<u32, u32>,
    samplers: HashMap<(u32, UniformName), u32>,
    next_marker: u64,
    reads: Vec<(u32, UniformName, u64)>,
}

impl Recorder {
    fn new() -> Self {
        Recorder {
            contents: HashMap::new(),
            active_unit: 0,
            units: HashMap::new(),
            samplers: HashMap::new(),
            next_marker: 1,
            reads: Vec::new(),
        }
    }

    fn run(&mut self, commands: &[GlCommand]) {
        for c in commands {
            match *c {
                GlCommand::CopyTexture { src, dst, .. } => {
                    let v = *self.contents.get(&src).unwrap_or(&0);
                    self.contents.insert(dst, v);
                }
                GlCommand::ActiveTexture(u) => self.active_unit = u,
                GlCommand::BindTexture { id, .. } => {
                    self.units.insert(self.active_unit, id);
                }
                GlCommand::SetUniform { program, name, value: UniformValue::Sampler(u) } => {
                    self.samplers.insert((program, name), u);
                }
                GlCommand::SetUniform { .. } | GlCommand::Viewport { .. } => {}
                GlCommand::Draw { program, output, .. } => {
                    let mut used: Vec<(UniformName, u32)> = self
                        .samplers
                        .iter()
                        .filter(|((p, _), _)| *p == program)
                        .map(|((_, n), u)| (*n, *u))
                        .collect();
                    used.sort_by_key(|(n, _)| n.as_str());
                    for (n, u) in used {
                        let tex = self.units[&u];
                        let v = *self.contents.get(&tex).unwrap_or(&0);
                        self.reads.push((program, n, v));
                    }
                    if let Some(t) = output {
                        self.contents.insert(t.texture, self.next_marker);
                        self.next_marker += 1;
                    }
                }
            }
        }
    }

    fn read(&self, program: u32, name: UniformName) -> u64 {
        self.reads.iter().rev().find(|(p, n, _)| *p == program && *n == name).unwrap().2
    }
}

#[test]
fn second_frame_reads_first_frame_outputs() {
    let d = loaded_drawer();
    let w = world();
    let mut rec = Recorder::new();

    rec.run(&d.draw(640, 480, &w));
    let frame1_position = rec.contents[&RAY_OUT];
    let frame1_lighting = rec.contents[&LIGHT_OUT];
    assert_ne!(frame1_position, frame1_lighting);

    rec.run(&d.draw(640, 480, &w));
    let frame2_position = rec.contents[&RAY_OUT];
    let frame2_lighting = rec.contents[&LIGHT_OUT];
    assert_ne!(frame2_position, frame1_position);
    assert_ne!(frame2_lighting, frame1_lighting);

    assert_eq!(rec.read(LIGHT_PROGRAM, UniformName::PreviousPositionTexture), frame1_position);
    assert_eq!(rec.read(LIGHT_PROGRAM, UniformName::PreviousLightingTexture), frame1_lighting);
    assert_eq!(rec.read(LIGHT_PROGRAM, UniformName::CurrentPositionTexture), frame2_position);
    assert_eq!(rec.read(FILTER_PROGRAM, UniformName::CurrentLightingTexture), frame2_lighting);
    assert_eq!(rec.read(FILTER_PROGRAM, UniformName::CurrentPositionTexture), frame2_position);
}

#[test]
fn frame_starts_with_the_snapshot() {
    let d = loaded_drawer();
    let cmds = d.draw(800, 600, &world());
    assert_eq!(
        cmds[0],
        GlCommand::CopyTexture { src: RAY_OUT, dst: PREV_POS, width: 800, height: 600 }
    );
    assert_eq!(
        cmds[1],
        GlCommand::CopyTexture { src: LIGHT_OUT, dst: PREV_LIGHT, width: 800, height: 600 }
    );
    let draws: Vec<u32> = cmds
        .iter()
        .filter_map(|c| match c {
            GlCommand::Draw { program, .. } => Some(*program),
            _ => None,
        })
        .collect();
    assert_eq!(draws, vec![RAY_PROGRAM, LIGHT_PROGRAM, FILTER_PROGRAM]);
    assert!(cmds[2..].iter().all(|c| !matches!(c, GlCommand::CopyTexture { .. })));
}

#[test]
fn each_pass_restores_unit_zero_before_drawing() {
    let d = loaded_drawer();
    let cmds = d.draw(800, 600, &world());
    for (i, c) in cmds.iter().enumerate() {
        if let GlCommand::Draw { .. } = c {
            assert_eq!(cmds[i - 2], GlCommand::ActiveTexture(0));
            assert_eq!(cmds[i - 1], GlCommand::Viewport { width: 800, height: 600 });
        }
    }
}

#[test]
fn raymarching_pass_wiring() {
    let d = loaded_drawer();
    let cmds = d.draw_pass_1(320, 200, WORLD_TEX);
    assert_eq!(
        cmds,
        vec![
            GlCommand::SetUniform { program: RAY_PROGRAM, name: UniformName::InvertMvp, value: UniformValue::Frame(FrameValue::InvertMvp) },
            GlCommand::SetUniform { program: RAY_PROGRAM, name: UniformName::CameraPosition, value: UniformValue::Frame(FrameValue::CameraPosition) },
            GlCommand::ActiveTexture(1),
            GlCommand::BindTexture { target: TextureTarget::Texture3D, id: WORLD_TEX },
            GlCommand::SetUniform { program: RAY_PROGRAM, name: UniformName::WorldDataTexture, value: UniformValue::Sampler(1) },
            GlCommand::ActiveTexture(0),
            GlCommand::Viewport { width: 320, height: 200 },
            GlCommand::Draw { program: RAY_PROGRAM, output: Some(RenderTarget { fbo: 20, texture: RAY_OUT }), vao: 1, vertex_count: QUAD_VERTEX_COUNT },
        ]
    );
}

#[test]
fn lighting_and_filter_descriptors() {
    let d = loaded_drawer();
    let l = d.setup_uniforms_draw_pass_2();
    assert_eq!(l.len(), 5);
    assert_eq!(l[2].name, UniformName::PreviousLightingTexture);
    assert_eq!(l[2].source, BindingSource::Texture { unit: 1, target: TextureTarget::Texture2D, id: PREV_LIGHT });
    assert_eq!(l[3].source, BindingSource::Texture { unit: 2, target: TextureTarget::Texture2D, id: PREV_POS });
    assert_eq!(l[4].source, BindingSource::Texture { unit: 3, target: TextureTarget::Texture2D, id: RAY_OUT });
    let f = d.setup_uniforms_draw_pass_3(WORLD_TEX);
    assert_eq!(f.len(), 4);
    assert_eq!(f[0].source, BindingSource::Frame(FrameValue::Time));
    assert_eq!(f[1].source, BindingSource::Texture { unit: 1, target: TextureTarget::Texture3D, id: WORLD_TEX });
    assert_eq!(f[2].source, BindingSource::Texture { unit: 2, target: TextureTarget::Texture2D, id: LIGHT_OUT });
    assert_eq!(f[3].source, BindingSource::Texture { unit: 3, target: TextureTarget::Texture2D, id: RAY_OUT });
    let last = d.draw_pass_3(10, 10, WORLD_TEX);
    assert_eq!(last[last.len() - 1], GlCommand::Draw { program: FILTER_PROGRAM, output: None, vao: 3, vertex_count: 6 });
}

#[test]
fn reload_request_and_failed_reload() {
    let mut d = loaded_drawer();
    assert_eq!(d.update(true), vec![Pass::Raymarching, Pass::Lighting, Pass::Filter]);
    assert!(d.update(false).is_empty());
    let r = d.compile(Pass::Lighting, Err(ShaderError::CompilationError("bad".to_string())));
    assert!(r.unwrap_err().is_compilation_error());
    assert!(d.has_program(Pass::Lighting));
    assert_eq!(d.program_id(Pass::Lighting), LIGHT_PROGRAM);
    let cmds = d.draw_pass_2(1, 1);
    assert!(matches!(cmds[cmds.len() - 1], GlCommand::Draw { program: LIGHT_PROGRAM, .. }));
    assert_eq!(d.compile(Pass::Filter, Ok(50)).unwrap(), 50);
    assert_eq!(d.program_id(Pass::Filter), 50);
    assert_eq!(d.program_id(Pass::Raymarching), RAY_PROGRAM);
    let cmds = d.draw_pass_3(1, 1, WORLD_TEX);
    assert!(matches!(cmds[cmds.len() - 1], GlCommand::Draw { program: 50, .. }));
}

#[test]
fn readiness_needs_every_part() {
    assert!(!Drawer::new().is_ready());
    assert!(loaded_drawer().is_ready());
}

#[test]
fn pass_names_and_uniform_names() {
    assert_eq!(Pass::Raymarching.name(), "raymarching");
    assert_eq!(Pass::Filter.name(), "filter");
    assert!(Pass::Lighting.has_framebuffer());
    assert!(!Pass::Filter.has_framebuffer());
    assert_eq!(UniformName::PreviousPositionTexture.as_str(), "previous_position_texture");
    assert_eq!(UniformName::InvertMvp.as_str(), "invert_mvp");
}

#[test]
fn texture_parameters() {
    let p = TextureParameter::new_float_parameter((1024, 768));
    assert_eq!(p.screen_size, (1024, 768));
    assert_eq!(p.internal_format, 0x8814);
    assert_eq!(p.format_type, 0x1406);
    let q = TextureParameter::new_unsigned_byte_parameter((2, 3));
    assert_eq!((q.internal_format, q.format_type), (0x1908, 0x1401));
}

#[test]
fn vertex_count_is_replaced_by_each_upload() {
    let mut vbo = VBO::new(1, voxel_render::resources::ARRAY_BUFFER);
    assert_eq!(vbo.nbr_of_vertices, 0);
    vbo.set_data(6);
    vbo.set_data(3);
    assert_eq!(vbo.nbr_of_vertices, 3);
}

//! A voxel volume and the three-pass GPU pipeline that renders it, described as data: the
//! volume keeps a packed RGBA buffer in step with its cells, and each frame is a list of GPU
//! commands that the host executes in order.
use vstd::prelude::*;

pub mod draw;
pub mod mesh;
pub mod replay;
pub mod resources;
pub mod shader;
pub mod world;

pub use draw::{Drawer, Pass};
pub use mesh::{
    BindingSource, FrameValue, GlCommand, Mesh, RenderTarget, TextureTarget, UniformBinding,
    UniformName, UniformValue, QUAD_VERTEX_COUNT,
};
pub use resources::{Texture2D, TextureParameter, FBO, VAO, VBO};
pub use shader::{
    check_source, link_inputs, link_result, source_path, stage_result, BuildStep, Shader,
    ShaderError, ShaderStage,
};
pub use world::{
    is_outside_world, texel_offset, Bloc, Color, Position, WorldData, WorldDataTexture,
    BYTES_PER_CELL, CELL_COUNT, PLANE_HEIGHT, WORLD_SIZE,
};

verus! {

} // verus!

use vstd::prelude::*;

use crate::draw::Drawer;
use crate::mesh::{
    binding_commands, bindings_commands, draw_command, pass_commands, target_of, BindingSource,
    GlCommand, Mesh, RenderTarget, UniformBinding, UniformName, UniformValue,
};

verus! {

/// What one draw call sampled: for each sampler uniform of its program, the content of the
/// texture that the uniform's unit held.
pub ghost struct DrawRecord {
    pub program: u32,
    pub inputs: Map<UniformName, int>,
}

/// An abstract GPU that runs a command list: what each texture holds, the texture bound on
/// each unit, the unit each sampler uniform reads, and a log of draws. A draw into a target
/// stamps it with the content `fresh`, which is never used again.
pub ghost struct GpuState {
    pub contents: Map<u32, int>,
    pub active: u32,
    pub units: Map<u32, u32>,
    pub samplers: Map<(u32, UniformName), u32>,
    pub fresh: int,
    pub draws: Seq<DrawRecord>,
}

/// What a draw with `program` samples in state `s`.
pub open spec fn sampled(s: GpuState, program: u32) -> DrawRecord {
    DrawRecord {
        program,
        inputs: Map::new(
            |n: UniformName| s.samplers.contains_key((program, n)),
            |n: UniformName| s.contents[s.units[s.samplers[(program, n)]]],
        ),
    }
}

/// The effect of one command.
pub open spec fn step(s: GpuState, c: GlCommand) -> GpuState {
    match c {
        GlCommand::CopyTexture { src, dst, .. } => GpuState {
            contents: s.contents.insert(dst, s.contents[src]),
            ..s
        },
        GlCommand::ActiveTexture(u) => GpuState { active: u, ..s },
        GlCommand::BindTexture { id, .. } => GpuState { units: s.units.insert(s.active, id), ..s },
        GlCommand::SetUniform { program, name, value } => match value {
            UniformValue::Sampler(u) => GpuState {
                samplers: s.samplers.insert((program, name), u),
                ..s
            },
            UniformValue::Frame(_) => s,
        },
        GlCommand::Viewport { .. } => s,
        GlCommand::Draw { program, output, .. } => {
            let logged = GpuState { draws: s.draws.push(sampled(s, program)), ..s };
            match output {
                Some(t) => GpuState {
                    contents: s.contents.insert(t.texture, s.fresh),
                    fresh: s.fresh + 1,
                    ..logged
                },
                None => logged,
            }
        },
    }
}

/// The state after running `cmds` in order from `s`.
pub open spec fn run(s: GpuState, cmds: Seq<GlCommand>) -> GpuState
    decreases cmds.len(),
{
    if cmds.len() == 0 {
        s
    } else {
        step(run(s, cmds.drop_last()), cmds.last())
    }
}

/// The effect of wiring one uniform, stated directly.
pub open spec fn apply_binding(s: GpuState, program: u32, b: UniformBinding) -> GpuState {
    match b.source {
        BindingSource::Frame(_) => s,
        BindingSource::Texture { unit, id, .. } => GpuState {
            active: unit,
            units: s.units.insert(unit, id),
            samplers: s.samplers.insert((program, b.name), unit),
            ..s
        },
    }
}

/// The effect of wiring a whole descriptor, stated directly.
pub open spec fn apply_bindings(s: GpuState, program: u32, bs: Seq<UniformBinding>) -> GpuState
    decreases bs.len(),
{
    if bs.len() == 0 {
        s
    } else {
        apply_binding(apply_bindings(s, program, bs.drop_last()), program, bs.last())
    }
}

/// Running two lists one after the other is running their concatenation.
pub proof fn lemma_run_append(s: GpuState, a: Seq<GlCommand>, b: Seq<GlCommand>)
    ensures
        run(s, a + b) == run(run(s, a), b),
    decreases b.len(),
{
    if b.len() == 0 {
        assert(a + b =~= a);
    } else {
        assert((a + b).drop_last() =~= a + b.drop_last());
        assert((a + b).last() == b.last());
        lemma_run_append(s, a, b.drop_last());
    }
}

/// Running one command is taking one step.
pub proof fn lemma_run_one(s: GpuState, a: GlCommand)
    ensures
        run(s, seq![a]) == step(s, a),
{
    assert(seq![a].drop_last() =~= Seq::<GlCommand>::empty());
    assert(run(s, Seq::<GlCommand>::empty()) == s);
}

/// Running three commands is taking three steps.
pub proof fn lemma_run_three(s: GpuState, a: GlCommand, b: GlCommand, c: GlCommand)
    ensures
        run(s, seq![a, b, c]) == step(step(step(s, a), b), c),
{
    lemma_run_one(s, a);
    assert(seq![a, b].drop_last() =~= seq![a]);
    assert(run(s, seq![a, b]) == step(step(s, a), b));
    assert(seq![a, b, c].drop_last() =~= seq![a, b]);
}

/// Running the commands of a descriptor has exactly the direct effect of its bindings.
pub proof fn lemma_bindings_effect(s: GpuState, program: u32, bs: Seq<UniformBinding>)
    ensures
        run(s, bindings_commands(program, bs)) == apply_bindings(s, program, bs),
    decreases bs.len(),
{
    if bs.len() > 0 {
        lemma_bindings_effect(s, program, bs.drop_last());
        let prefix = bindings_commands(program, bs.drop_last());
        let last = binding_commands(program, bs.last());
        lemma_run_append(s, prefix, last);
        let t = run(s, prefix);
        let b = bs.last();
        match b.source {
            BindingSource::Frame(v) => {
                lemma_run_one(
                    t,
                    GlCommand::SetUniform { program, name: b.name, value: UniformValue::Frame(v) },
                );
            },
            BindingSource::Texture { unit, target, id } => {
                lemma_run_three(
                    t,
                    GlCommand::ActiveTexture(unit),
                    GlCommand::BindTexture { target, id },
                    GlCommand::SetUniform { program, name: b.name, value: UniformValue::Sampler(unit) },
                );
            },
        }
    }
}

/// A pass: its bindings take effect, then unit 0 is made active, then the draw samples and
/// stamps its target.
pub proof fn lemma_pass_effect(s: GpuState, m: Mesh, bs: Seq<UniformBinding>, width: i32, height: i32)
    ensures
        run(s, pass_commands(m, bs, width, height)) == step(
            GpuState { active: 0, ..apply_bindings(s, m.shader.id, bs) },
            draw_command(m),
        ),
{
    let tail = seq![
        GlCommand::ActiveTexture(0),
        GlCommand::Viewport { width, height },
        draw_command(m),
    ];
    lemma_bindings_effect(s, m.shader.id, bs);
    lemma_run_append(s, bindings_commands(m.shader.id, bs), tail);
    lemma_run_three(
        apply_bindings(s, m.shader.id, bs),
        GlCommand::ActiveTexture(0),
        GlCommand::Viewport { width, height },
        draw_command(m),
    );
}

/// The previous-frame textures and the passes' outputs are four distinct textures.
pub open spec fn separate_textures(d: Drawer) -> bool {
    let pos = d.position_output();
    let light = d.lighting_output();
    let prev_pos = d.previous_position()->0.id;
    let prev_light = d.previous_lighting()->0.id;
    pos != light && pos != prev_pos && pos != prev_light && light != prev_pos && light
        != prev_light && prev_pos != prev_light
}

/// Over two consecutive frames, the lighting pass of the second frame reads as "previous"
/// position and lighting exactly what the first frame's raymarching and lighting passes
/// drew, while its "current" position is what the second frame's raymarching pass just drew,
/// a different content.
pub proof fn lemma_second_frame_reads_first_frame(
    d: Drawer,
    s0: GpuState,
    width: i32,
    height: i32,
    world_texture: u32,
)
    requires
        d.is_loaded(),
        separate_textures(d),
    ensures
        ({
            let frame = d.frame_commands(width, height, world_texture);
            let s1 = run(s0, frame);
            let s2 = run(s1, frame);
            let lit = s2.draws[s1.draws.len() as int + 1];
            &&& s1.draws.len() == s0.draws.len() + 3
            &&& s2.draws.len() == s1.draws.len() + 3
            &&& lit.program == d.lighting()->0.shader.id
            &&& lit.inputs[UniformName::PreviousPositionTexture] == s1.contents[d.position_output()]
            &&& lit.inputs[UniformName::PreviousLightingTexture] == s1.contents[d.lighting_output()]
            &&& lit.inputs[UniformName::CurrentPositionTexture] == s2.contents[d.position_output()]
            &&& s1.contents[d.position_output()] == s0.fresh
            &&& s1.contents[d.lighting_output()] == s0.fresh + 1
            &&& s2.contents[d.position_output()] == s0.fresh + 2
        }),
{
    let frame = d.frame_commands(width, height, world_texture);
    lemma_frame_effect(d, s0, width, height, world_texture);
    let s1 = run(s0, frame);
    lemma_frame_effect(d, s1, width, height, world_texture);
}

/// One frame: three draws are logged; the raymarching output holds the frame's first fresh
/// content, the lighting output the second; the lighting draw samples the previous-frame
/// textures as they were copied at the start of the frame, and the current position output.
pub proof fn lemma_frame_effect(d: Drawer, s: GpuState, width: i32, height: i32, world_texture: u32)
    requires
        d.is_loaded(),
        separate_textures(d),
    ensures
        ({
            let r = run(s, d.frame_commands(width, height, world_texture));
            let lit = r.draws[s.draws.len() as int + 1];
            &&& r.draws.len() == s.draws.len() + 3
            &&& r.fresh == s.fresh + 2
            &&& r.draws.take(s.draws.len() as int) == s.draws
            &&& lit.program == d.lighting()->0.shader.id
            &&& lit.inputs[UniformName::PreviousPositionTexture] == s.contents[d.position_output()]
            &&& lit.inputs[UniformName::PreviousLightingTexture] == s.contents[d.lighting_output()]
            &&& lit.inputs[UniformName::CurrentPositionTexture] == s.fresh
            &&& r.contents[d.position_output()] == s.fresh
            &&& r.contents[d.lighting_output()] == s.fresh + 1
        }),
{
    let ray = d.raymarching()->0;
    let light = d.lighting()->0;
    let filter = d.filter()->0;
    let snap = d.snapshot_commands(width, height);
    let raymarching_pass = pass_commands(ray, d.pass_1_bindings(world_texture), width, height);
    let lighting_pass = pass_commands(light, d.pass_2_bindings(), width, height);
    let filter_pass = pass_commands(filter, d.pass_3_bindings(world_texture), width, height);
    lemma_run_append(s, snap, raymarching_pass);
    lemma_run_append(s, snap + raymarching_pass, lighting_pass);
    lemma_run_append(s, snap + raymarching_pass + lighting_pass, filter_pass);
    let ta = run(s, snap);
    assert(snap.drop_last().drop_last() =~= Seq::<GlCommand>::empty());
    assert(run(s, snap.drop_last().drop_last()) == s);
    assert(run(s, snap.drop_last()) == step(s, snap[0]));
    assert(ta == step(step(s, snap[0]), snap[1]));
    let pos = d.position_output();
    let lt = d.lighting_output();
    assert(ta.draws == s.draws && ta.fresh == s.fresh);

    lemma_pass_effect(ta, ray, d.pass_1_bindings(world_texture), width, height);
    lemma_apply_bindings_keeps(ta, ray.shader.id, d.pass_1_bindings(world_texture));
    let tb = run(ta, raymarching_pass);
    assert(target_of(ray.shader) == Some(RenderTarget { fbo: ray.shader.fbo->0.fbo_id, texture: pos }));
    assert(tb.contents == ta.contents.insert(pos, s.fresh));
    assert(tb.draws == ta.draws.push(tb.draws.last()));

    lemma_pass_effect(tb, light, d.pass_2_bindings(), width, height);
    lemma_apply_pass_2(d, tb);
    let tc = run(tb, lighting_pass);
    let wired = apply_bindings(tb, light.shader.id, d.pass_2_bindings());
    assert(tc.draws == tb.draws.push(sampled(GpuState { active: 0, ..wired }, light.shader.id)));
    assert(tc.contents == tb.contents.insert(lt, s.fresh + 1));

    lemma_pass_effect(tc, filter, d.pass_3_bindings(world_texture), width, height);
    lemma_apply_bindings_keeps(tc, filter.shader.id, d.pass_3_bindings(world_texture));
    let r = run(tc, filter_pass);
    assert(r.contents == tc.contents);
    assert(r.fresh == tc.fresh);
    assert(r.draws == tc.draws.push(r.draws.last()));
    assert(r.draws.take(s.draws.len() as int) =~= s.draws);
    assert(r.draws[s.draws.len() as int + 1] == tc.draws[s.draws.len() as int + 1]);
}

/// Wiring uniforms changes neither the textures' contents, nor the fresh content, nor the log.
pub proof fn lemma_apply_bindings_keeps(s: GpuState, program: u32, bs: Seq<UniformBinding>)
    ensures
        apply_bindings(s, program, bs).contents == s.contents,
        apply_bindings(s, program, bs).fresh == s.fresh,
        apply_bindings(s, program, bs).draws == s.draws,
    decreases bs.len(),
{
    if bs.len() > 0 {
        lemma_apply_bindings_keeps(s, program, bs.drop_last());
    }
}

/// The lighting descriptor binds previous lighting, previous positions and current positions to
/// units 1, 2 and 3, and the samplers to those units.
proof fn lemma_apply_pass_2(d: Drawer, s: GpuState)
    requires
        d.is_loaded(),
    ensures
        ({
            let p = d.lighting()->0.shader.id;
            let w = apply_bindings(s, p, d.pass_2_bindings());
            &&& w.contents == s.contents
            &&& w.fresh == s.fresh
            &&& w.draws == s.draws
            &&& w.samplers[(p, UniformName::PreviousLightingTexture)] == 1
            &&& w.samplers[(p, UniformName::PreviousPositionTexture)] == 2
            &&& w.samplers[(p, UniformName::CurrentPositionTexture)] == 3
            &&& w.samplers.contains_key((p, UniformName::PreviousLightingTexture))
            &&& w.samplers.contains_key((p, UniformName::PreviousPositionTexture))
            &&& w.samplers.contains_key((p, UniformName::CurrentPositionTexture))
            &&& w.units[1] == d.previous_lighting()->0.id
            &&& w.units[2] == d.previous_position()->0.id
            &&& w.units[3] == d.position_output()
        }),
{
    let p = d.lighting()->0.shader.id;
    let bs = d.pass_2_bindings();
    lemma_apply_bindings_keeps(s, p, bs);
    assert(bs.drop_last().drop_last().drop_last().drop_last().drop_last() =~= Seq::<
        UniformBinding,
    >::empty());
    let w0 = s;
    assert(apply_bindings(s, p, bs.drop_last().drop_last().drop_last().drop_last().drop_last()) == s);
    let w1 = apply_binding(w0, p, bs[0]);
    let w2 = apply_binding(w1, p, bs[1]);
    let w3 = apply_binding(w2, p, bs[2]);
    let w4 = apply_binding(w3, p, bs[3]);
    let w5 = apply_binding(w4, p, bs[4]);
    assert(apply_bindings(s, p, bs.drop_last().drop_last().drop_last().drop_last()) == w1);
    assert(apply_bindings(s, p, bs.drop_last().drop_last().drop_last()) == w2);
    assert(apply_bindings(s, p, bs.drop_last().drop_last()) == w3);
    assert(apply_bindings(s, p, bs.drop_last()) == w4);
    assert(apply_bindings(s, p, bs) == w5);
}

} // verus!

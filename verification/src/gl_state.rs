//! A model of the GL context state that the cache's commands act on, and the
//! meaning of each command on that state.

use vstd::prelude::*;
use crate::cache::GlCommand;
use crate::gl;

verus! {

/// The stencil settings of one face.
pub struct StencilFaceModel {
    pub fail: u32,
    pub depth_fail: u32,
    pub pass: u32,
    pub func: u32,
    pub reference: i32,
    pub mask: u32,
    pub write_mask: u32,
}

/// The part of a GL context's state that the cache keeps track of.
#[verifier::ext_equal]
pub struct GlModel {
    pub array_buffer: Option<u32>,
    pub element_buffer: Option<u32>,
    pub active_unit: u32,
    /// Bound textures, by texture unit and target.
    pub texture_bindings: Map<(u32, u32), u32>,
    pub program: Option<u32>,
    /// Enabled capabilities.
    pub enabled: Set<u32>,
    /// Blend factors: source RGB, destination RGB, source alpha, destination alpha.
    pub blend_func: (u32, u32, u32, u32),
    /// Blend equations: RGB, alpha.
    pub blend_equation: (u32, u32),
    pub stencil_front: StencilFaceModel,
    pub stencil_back: StencilFaceModel,
    pub depth_func: u32,
    pub front_face: u32,
    pub cull_mode: u32,
    pub color_mask: (bool, bool, bool, bool),
}

/// The stencil settings of `face` in `g`.
pub open spec fn stencil_face(g: GlModel, face: u32) -> StencilFaceModel {
    if face == gl::FRONT {
        g.stencil_front
    } else {
        g.stencil_back
    }
}

/// `g` with the stencil settings of `face` replaced (only the front and the
/// back face are modelled).
pub open spec fn with_stencil_face(g: GlModel, face: u32, f: StencilFaceModel) -> GlModel {
    if face == gl::FRONT {
        GlModel { stencil_front: f, ..g }
    } else if face == gl::BACK {
        GlModel { stencil_back: f, ..g }
    } else {
        g
    }
}

/// The state of `g` after the GL call `c`.
pub open spec fn apply_command(g: GlModel, c: GlCommand) -> GlModel {
    match c {
        GlCommand::BindBuffer { target, buffer } => if target == gl::ARRAY_BUFFER {
            GlModel { array_buffer: Some(buffer), ..g }
        } else if target == gl::ELEMENT_ARRAY_BUFFER {
            GlModel { element_buffer: Some(buffer), ..g }
        } else {
            g
        },
        GlCommand::ActiveTexture { unit } => GlModel { active_unit: unit, ..g },
        GlCommand::BindTexture { target, texture } => GlModel {
            texture_bindings: g.texture_bindings.insert((g.active_unit, target), texture),
            ..g
        },
        GlCommand::UseProgram { program } => GlModel { program: Some(program), ..g },
        GlCommand::Enable { cap } => GlModel { enabled: g.enabled.insert(cap), ..g },
        GlCommand::Disable { cap } => GlModel { enabled: g.enabled.remove(cap), ..g },
        GlCommand::BlendFunc { src, dst } => GlModel { blend_func: (src, dst, src, dst), ..g },
        GlCommand::BlendFuncSeparate { src_rgb, dst_rgb, src_alpha, dst_alpha } => GlModel {
            blend_func: (src_rgb, dst_rgb, src_alpha, dst_alpha),
            ..g
        },
        GlCommand::BlendEquation { mode } => GlModel { blend_equation: (mode, mode), ..g },
        GlCommand::BlendEquationSeparate { mode_rgb, mode_alpha } => GlModel {
            blend_equation: (mode_rgb, mode_alpha),
            ..g
        },
        GlCommand::StencilOpSeparate { face, fail, depth_fail, pass } => with_stencil_face(
            g,
            face,
            StencilFaceModel { fail, depth_fail, pass, ..stencil_face(g, face) },
        ),
        GlCommand::StencilFuncSeparate { face, func, reference, mask } => with_stencil_face(
            g,
            face,
            StencilFaceModel { func, reference, mask, ..stencil_face(g, face) },
        ),
        GlCommand::StencilMaskSeparate { face, mask } => with_stencil_face(
            g,
            face,
            StencilFaceModel { write_mask: mask, ..stencil_face(g, face) },
        ),
        GlCommand::DepthFunc { func } => GlModel { depth_func: func, ..g },
        GlCommand::FrontFace { mode } => GlModel { front_face: mode, ..g },
        GlCommand::CullFace { mode } => GlModel { cull_mode: mode, ..g },
        GlCommand::ColorMask { red, green, blue, alpha } => GlModel {
            color_mask: (red, green, blue, alpha),
            ..g
        },
        GlCommand::DisableVertexAttribArray { .. } => g,
        GlCommand::EnableVertexAttribArray { .. } => g,
        GlCommand::VertexAttribPointerI32 { .. } => g,
        GlCommand::VertexAttribPointerF32 { .. } => g,
    }
}

/// The state of `g` after the GL calls `cmds`, in order.
pub open spec fn run_commands(g: GlModel, cmds: Seq<GlCommand>) -> GlModel
    decreases cmds.len(),
{
    if cmds.len() == 0 {
        g
    } else {
        apply_command(run_commands(g, cmds.drop_last()), cmds.last())
    }
}

/// Running one command is applying it.
pub proof fn lemma_run_single(g: GlModel, c: GlCommand)
    ensures
        run_commands(g, seq![c]) == apply_command(g, c),
{
    assert(seq![c].drop_last() =~= Seq::<GlCommand>::empty());
    assert(run_commands(g, seq![c].drop_last()) == g);
    assert(seq![c].last() == c);
}

/// Running two commands is applying them in turn.
pub proof fn lemma_run_two(g: GlModel, a: GlCommand, b: GlCommand)
    ensures
        run_commands(g, seq![a, b]) == apply_command(apply_command(g, a), b),
{
    assert(seq![a, b] =~= seq![a] + seq![b]);
    lemma_run_append(g, seq![a], seq![b]);
    lemma_run_single(g, a);
    lemma_run_single(apply_command(g, a), b);
}

/// Running three commands is applying them in turn.
pub proof fn lemma_run_three(g: GlModel, a: GlCommand, b: GlCommand, c: GlCommand)
    ensures
        run_commands(g, seq![a, b, c]) == apply_command(
            apply_command(apply_command(g, a), b),
            c,
        ),
{
    assert(seq![a, b, c] =~= seq![a, b] + seq![c]);
    lemma_run_append(g, seq![a, b], seq![c]);
    lemma_run_two(g, a, b);
    lemma_run_single(apply_command(apply_command(g, a), b), c);
}

/// Running no command leaves the state as it is.
pub proof fn lemma_run_empty(g: GlModel)
    ensures
        run_commands(g, Seq::<GlCommand>::empty()) == g,
{
}

/// Running two command lists in turn is running their concatenation.
pub proof fn lemma_run_append(g: GlModel, a: Seq<GlCommand>, b: Seq<GlCommand>)
    ensures
        run_commands(g, a + b) == run_commands(run_commands(g, a), b),
    decreases b.len(),
{
    if b.len() == 0 {
        assert(a + b =~= a);
    } else {
        assert((a + b).drop_last() =~= a + b.drop_last());
        assert((a + b).last() == b.last());
        lemma_run_append(g, a, b.drop_last());
    }
}

} // verus!

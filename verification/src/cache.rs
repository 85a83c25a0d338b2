//! The GL state cache.
//!
//! The cache remembers what it last told the GL context (bound buffers,
//! textures and program, and the fixed-function settings) and, for each
//! request, computes the GL commands that are still needed. The host carries
//! the commands out in order on the live context.

use vstd::prelude::*;
use crate::gl;
use crate::gl_state::{
    apply_command, lemma_run_append, lemma_run_empty, lemma_run_single, lemma_run_three,
    lemma_run_two, run_commands, stencil_face, with_stencil_face, GlModel, StencilFaceModel,
};
use crate::pipeline_params::{
    blend_equation_gl, blend_factor_gl, compare_func_gl, comparison_gl, stencil_op_gl, Blending,
    ColorMask, Comparison, CullFace, FrontFaceOrder, StencilFaceState, StencilState,
};

verus! {

/// Number of texture slots the cache tracks.
pub const MAX_SHADERSTAGE_IMAGES: usize = 12;

/// A texture bound to a texture unit, with the target it is bound to.
#[derive(Debug, Clone, Copy, PartialEq, Eq, Structural)]
pub struct CachedTexture {
    pub target: u32,
    pub texture: u32,
}

/// One GL call, with its arguments.
#[derive(Debug, Clone, Copy, PartialEq, Eq, Structural)]
pub enum GlCommand {
    BindBuffer { target: u32, buffer: u32 },
    ActiveTexture { unit: u32 },
    BindTexture { target: u32, texture: u32 },
    UseProgram { program: u32 },
    Enable { cap: u32 },
    Disable { cap: u32 },
    BlendFunc { src: u32, dst: u32 },
    BlendFuncSeparate { src_rgb: u32, dst_rgb: u32, src_alpha: u32, dst_alpha: u32 },
    BlendEquation { mode: u32 },
    BlendEquationSeparate { mode_rgb: u32, mode_alpha: u32 },
    StencilOpSeparate { face: u32, fail: u32, depth_fail: u32, pass: u32 },
    StencilFuncSeparate { face: u32, func: u32, reference: i32, mask: u32 },
    StencilMaskSeparate { face: u32, mask: u32 },
    DepthFunc { func: u32 },
    FrontFace { mode: u32 },
    CullFace { mode: u32 },
    ColorMask { red: bool, green: bool, blue: bool, alpha: bool },
    DisableVertexAttribArray { index: u32 },
    EnableVertexAttribArray { index: u32 },
    VertexAttribPointerI32 { index: u32, size: i32, data_type: u32, stride: i32, offset: i32 },
    VertexAttribPointerF32 {
        index: u32,
        size: i32,
        data_type: u32,
        normalized: bool,
        stride: i32,
        offset: i32,
    },
}

/// What the cache believes the GL context holds.
#[verifier::ext_equal]
pub struct CacheState {
    pub index_buffer: Option<u32>,
    pub vertex_buffer: Option<u32>,
    pub textures: Seq<Option<CachedTexture>>,
    pub program: Option<u32>,
    pub front_face_order: FrontFaceOrder,
    pub depth_test: Option<Comparison>,
    pub blend: Blending,
    pub stencil: Option<StencilState>,
    pub color_write: ColorMask,
    pub cull_face: CullFace,
}

/// A well-formed cache state tracks exactly the texture slots there are.
pub open spec fn valid_state(s: CacheState) -> bool {
    s.textures.len() == MAX_SHADERSTAGE_IMAGES
}

/// The state of a fresh cache.
pub open spec fn initial_state() -> CacheState {
    CacheState {
        index_buffer: None,
        vertex_buffer: None,
        textures: Seq::new(MAX_SHADERSTAGE_IMAGES as nat, |i: int| None),
        program: None,
        front_face_order: FrontFaceOrder::CounterClockwise,
        depth_test: None,
        blend: Blending::Disabled,
        stencil: None,
        color_write: (true, true, true, true),
        cull_face: CullFace::Nothing,
    }
}

/// A request made to the cache.
#[derive(Debug, Clone, Copy)]
pub enum CacheOp {
    BindBuffer(u32),
    BindIndexBuffer(u32),
    BindTexture { slot: u32, target: u32, texture: u32 },
    BindProgram(u32),
    SetBlend(Blending),
    SetStencil(Option<StencilState>),
    SetDepthTest(Option<Comparison>),
    SetFrontFaceOrder(FrontFaceOrder),
    SetCullFace(CullFace),
    SetColorWrite(ColorMask),
}

/// A request the cache can carry out (texture slots are bounded).
pub open spec fn op_allowed(op: CacheOp) -> bool {
    match op {
        CacheOp::BindTexture { slot, .. } => slot < MAX_SHADERSTAGE_IMAGES,
        _ => true,
    }
}

/// The commands that set one face of the stencil test.
pub open spec fn stencil_face_commands(face: u32, st: StencilFaceState) -> Seq<GlCommand> {
    seq![
        GlCommand::StencilOpSeparate {
            face,
            fail: stencil_op_gl(st.fail_op),
            depth_fail: stencil_op_gl(st.depth_fail_op),
            pass: stencil_op_gl(st.pass_op),
        },
        GlCommand::StencilFuncSeparate {
            face,
            func: compare_func_gl(st.test_func),
            reference: st.test_ref,
            mask: st.test_mask,
        },
        GlCommand::StencilMaskSeparate { face, mask: st.write_mask },
    ]
}

/// The commands the cache issues for `op` when it holds `s`.
pub open spec fn op_commands(s: CacheState, op: CacheOp) -> Seq<GlCommand> {
    match op {
        CacheOp::BindBuffer(b) => if s.vertex_buffer == Some(b) {
            seq![]
        } else {
            seq![GlCommand::BindBuffer { target: gl::ARRAY_BUFFER, buffer: b }]
        },
        CacheOp::BindIndexBuffer(b) => if s.index_buffer == Some(b) {
            seq![]
        } else {
            seq![GlCommand::BindBuffer { target: gl::ELEMENT_ARRAY_BUFFER, buffer: b }]
        },
        CacheOp::BindTexture { slot, target, texture } => {
            if s.textures[slot as int] == Some(CachedTexture { target, texture }) {
                seq![]
            } else {
                seq![
                    GlCommand::ActiveTexture { unit: (slot + gl::TEXTURE0) as u32 },
                    GlCommand::BindTexture { target, texture },
                ]
            }
        },
        CacheOp::BindProgram(p) => if s.program == Some(p) {
            seq![]
        } else {
            seq![GlCommand::UseProgram { program: p }]
        },
        CacheOp::SetBlend(blend) => if s.blend == blend {
            seq![]
        } else {
            let enable = if s.blend == Blending::Disabled {
                seq![GlCommand::Enable { cap: gl::BLEND }]
            } else {
                seq![]
            };
            match blend {
                Blending::Disabled => seq![GlCommand::Disable { cap: gl::BLEND }],
                Blending::All(f) => enable + seq![
                    GlCommand::BlendFunc {
                        src: blend_factor_gl(f.source),
                        dst: blend_factor_gl(f.dest),
                    },
                    GlCommand::BlendEquation { mode: blend_equation_gl(f.equation) },
                ],
                Blending::Separate { color, alpha } => enable + seq![
                    GlCommand::BlendFuncSeparate {
                        src_rgb: blend_factor_gl(color.source),
                        dst_rgb: blend_factor_gl(color.dest),
                        src_alpha: blend_factor_gl(alpha.source),
                        dst_alpha: blend_factor_gl(alpha.dest),
                    },
                    GlCommand::BlendEquationSeparate {
                        mode_rgb: blend_equation_gl(color.equation),
                        mode_alpha: blend_equation_gl(alpha.equation),
                    },
                ],
            }
        },
        CacheOp::SetStencil(stencil) => if s.stencil == stencil {
            seq![]
        } else {
            match stencil {
                None => seq![GlCommand::Disable { cap: gl::STENCIL_TEST }],
                Some(st) => {
                    let enable = if s.stencil is None {
                        seq![GlCommand::Enable { cap: gl::STENCIL_TEST }]
                    } else {
                        seq![]
                    };
                    enable + stencil_face_commands(gl::FRONT, st.front)
                        + stencil_face_commands(gl::BACK, st.back)
                },
            }
        },
        CacheOp::SetDepthTest(depth_test) => if s.depth_test == depth_test {
            seq![]
        } else {
            match (s.depth_test, depth_test) {
                (None, Some(func)) => seq![
                    GlCommand::Enable { cap: gl::DEPTH_TEST },
                    GlCommand::DepthFunc { func: comparison_gl(func) },
                ],
                (Some(_), None) => seq![GlCommand::Disable { cap: gl::DEPTH_TEST }],
                (Some(_), Some(func)) => seq![GlCommand::DepthFunc { func: comparison_gl(func) }],
                (None, None) => seq![],
            }
        },
        CacheOp::SetFrontFaceOrder(order) => if s.front_face_order == order {
            seq![]
        } else {
            match order {
                FrontFaceOrder::Clockwise => seq![GlCommand::FrontFace { mode: gl::CW }],
                FrontFaceOrder::CounterClockwise => seq![GlCommand::FrontFace { mode: gl::CCW }],
            }
        },
        CacheOp::SetCullFace(cull) => if s.cull_face == cull {
            seq![]
        } else {
            match cull {
                CullFace::Nothing => seq![GlCommand::Disable { cap: gl::CULL_FACE }],
                CullFace::Front => seq![
                    GlCommand::Enable { cap: gl::CULL_FACE },
                    GlCommand::CullFace { mode: gl::FRONT },
                ],
                CullFace::Back => seq![
                    GlCommand::Enable { cap: gl::CULL_FACE },
                    GlCommand::CullFace { mode: gl::BACK },
                ],
            }
        },
        CacheOp::SetColorWrite(mask) => if s.color_write == mask {
            seq![]
        } else {
            seq![GlCommand::ColorMask { red: mask.0, green: mask.1, blue: mask.2, alpha: mask.3 }]
        },
    }
}

/// The cache state after `op`.
///
/// A disabled stencil test, a depth test and a front-face order are sent to
/// GL but never recorded: the state keeps what it held before.
pub open spec fn op_next(s: CacheState, op: CacheOp) -> CacheState {
    match op {
        CacheOp::BindBuffer(b) => CacheState { vertex_buffer: Some(b), ..s },
        CacheOp::BindIndexBuffer(b) => CacheState { index_buffer: Some(b), ..s },
        CacheOp::BindTexture { slot, target, texture } => CacheState {
            textures: s.textures.update(slot as int, Some(CachedTexture { target, texture })),
            ..s
        },
        CacheOp::BindProgram(p) => CacheState { program: Some(p), ..s },
        CacheOp::SetBlend(blend) => CacheState { blend, ..s },
        CacheOp::SetStencil(stencil) => match stencil {
            None => s,
            Some(_) => CacheState { stencil, ..s },
        },
        CacheOp::SetDepthTest(_) => s,
        CacheOp::SetFrontFaceOrder(_) => s,
        CacheOp::SetCullFace(cull) => CacheState { cull_face: cull, ..s },
        CacheOp::SetColorWrite(mask) => CacheState { color_write: mask, ..s },
    }
}


/// `texture` is bound to its target on the texture unit of `slot`.
pub open spec fn texture_bound(g: GlModel, slot: int, t: CachedTexture) -> bool {
    let key = ((slot + gl::TEXTURE0) as u32, t.target);
    &&& g.texture_bindings.contains_key(key)
    &&& g.texture_bindings[key] == t.texture
}

/// The GL stencil settings of one face agree with `f`.
pub open spec fn face_mirrors(m: StencilFaceModel, f: StencilFaceState) -> bool {
    &&& m.fail == stencil_op_gl(f.fail_op)
    &&& m.depth_fail == stencil_op_gl(f.depth_fail_op)
    &&& m.pass == stencil_op_gl(f.pass_op)
    &&& m.func == compare_func_gl(f.test_func)
    &&& m.reference == f.test_ref
    &&& m.mask == f.test_mask
    &&& m.write_mask == f.write_mask
}

/// The GL blending state agrees with `blend`.
pub open spec fn blend_mirrors(blend: Blending, g: GlModel) -> bool {
    match blend {
        Blending::Disabled => !g.enabled.contains(gl::BLEND),
        Blending::All(f) => {
            &&& g.enabled.contains(gl::BLEND)
            &&& g.blend_func == (
                blend_factor_gl(f.source),
                blend_factor_gl(f.dest),
                blend_factor_gl(f.source),
                blend_factor_gl(f.dest),
            )
            &&& g.blend_equation == (blend_equation_gl(f.equation), blend_equation_gl(f.equation))
        },
        Blending::Separate { color, alpha } => {
            &&& g.enabled.contains(gl::BLEND)
            &&& g.blend_func == (
                blend_factor_gl(color.source),
                blend_factor_gl(color.dest),
                blend_factor_gl(alpha.source),
                blend_factor_gl(alpha.dest),
            )
            &&& g.blend_equation == (
                blend_equation_gl(color.equation),
                blend_equation_gl(alpha.equation),
            )
        },
    }
}

/// The GL stencil test agrees with `stencil`.
pub open spec fn stencil_mirrors(stencil: Option<StencilState>, g: GlModel) -> bool {
    match stencil {
        None => !g.enabled.contains(gl::STENCIL_TEST),
        Some(st) => {
            &&& g.enabled.contains(gl::STENCIL_TEST)
            &&& face_mirrors(g.stencil_front, st.front)
            &&& face_mirrors(g.stencil_back, st.back)
        },
    }
}

/// The GL face culling agrees with `cull`.
pub open spec fn cull_mirrors(cull: CullFace, g: GlModel) -> bool {
    match cull {
        CullFace::Nothing => !g.enabled.contains(gl::CULL_FACE),
        CullFace::Front => g.enabled.contains(gl::CULL_FACE) && g.cull_mode == gl::FRONT,
        CullFace::Back => g.enabled.contains(gl::CULL_FACE) && g.cull_mode == gl::BACK,
    }
}

/// Everything the cache records holds in the GL context `g`.
pub open spec fn mirrors(s: CacheState, g: GlModel) -> bool {
    &&& (s.vertex_buffer is Some ==> g.array_buffer == s.vertex_buffer)
    &&& (s.index_buffer is Some ==> g.element_buffer == s.index_buffer)
    &&& (s.program is Some ==> g.program == s.program)
    &&& forall|i: int|
        0 <= i < s.textures.len() ==> match #[trigger] s.textures[i] {
            Some(t) => texture_bound(g, i, t),
            None => true,
        }
    &&& blend_mirrors(s.blend, g)
    &&& stencil_mirrors(s.stencil, g)
    &&& cull_mirrors(s.cull_face, g)
    &&& g.color_mask == s.color_write
}

/// A GL context as it is created: blending, stencil test and culling are
/// off, and all color channels are written.
pub open spec fn fresh_context(g: GlModel) -> bool {
    &&& !g.enabled.contains(gl::BLEND)
    &&& !g.enabled.contains(gl::STENCIL_TEST)
    &&& !g.enabled.contains(gl::CULL_FACE)
    &&& g.color_mask == (true, true, true, true)
}

/// `op` disables the stencil test while the cache records it as enabled: GL
/// is told, the cache is not.
pub open spec fn op_forgets_stencil(s: CacheState, op: CacheOp) -> bool {
    &&& op matches CacheOp::SetStencil(None)
    &&& s.stencil is Some
}

/// A fresh cache agrees with a freshly created GL context.
pub proof fn lemma_fresh_cache_mirrors(g: GlModel)
    requires
        fresh_context(g),
    ensures
        mirrors(initial_state(), g),
{
}


/// The commands that bring any GL context back to the fixed-function state
/// of a fresh one: blending, stencil test and culling off, all channels written.
pub open spec fn reset_commands() -> Seq<GlCommand> {
    seq![
        GlCommand::Disable { cap: gl::BLEND },
        GlCommand::Disable { cap: gl::STENCIL_TEST },
        GlCommand::Disable { cap: gl::CULL_FACE },
        GlCommand::ColorMask { red: true, green: true, blue: true, alpha: true },
    ]
}

/// After a reset the cache agrees with the GL context, whatever state the
/// context was left in.
pub proof fn lemma_reset_mirrors(g: GlModel)
    ensures
        mirrors(initial_state(), run_commands(g, reset_commands())),
{
    let c = reset_commands();
    assert(c =~= seq![c[0], c[1], c[2]] + seq![c[3]]);
    lemma_run_append(g, seq![c[0], c[1], c[2]], seq![c[3]]);
    lemma_run_three(g, c[0], c[1], c[2]);
    lemma_run_single(run_commands(g, seq![c[0], c[1], c[2]]), c[3]);
}

/// Carrying out the commands of a request keeps the cache in agreement with
/// the GL context, except when a recorded stencil test is disabled.
pub proof fn lemma_op_keeps_mirror(s: CacheState, g: GlModel, op: CacheOp)
    requires
        valid_state(s),
        op_allowed(op),
        mirrors(s, g),
        !op_forgets_stencil(s, op),
    ensures
        mirrors(op_next(s, op), run_commands(g, op_commands(s, op))),
{
    match op {
        CacheOp::BindBuffer(..) => lemma_bind_buffer_keeps_mirror(s, g, op),
        CacheOp::BindIndexBuffer(..) => lemma_bind_index_buffer_keeps_mirror(s, g, op),
        CacheOp::BindTexture { .. } => lemma_bind_texture_keeps_mirror(s, g, op),
        CacheOp::BindProgram(..) => lemma_bind_program_keeps_mirror(s, g, op),
        CacheOp::SetBlend(..) => lemma_set_blend_keeps_mirror(s, g, op),
        CacheOp::SetStencil(..) => lemma_set_stencil_keeps_mirror(s, g, op),
        CacheOp::SetDepthTest(..) => lemma_set_depth_test_keeps_mirror(s, g, op),
        CacheOp::SetFrontFaceOrder(..) => lemma_set_front_face_order_keeps_mirror(s, g, op),
        CacheOp::SetCullFace(..) => lemma_set_cull_face_keeps_mirror(s, g, op),
        CacheOp::SetColorWrite(..) => lemma_set_color_write_keeps_mirror(s, g, op),
    }
}

proof fn lemma_bind_buffer_keeps_mirror(s: CacheState, g: GlModel, op: CacheOp)
    requires
        valid_state(s),
        op_allowed(op),
        mirrors(s, g),
        !op_forgets_stencil(s, op),
        op is BindBuffer,
    ensures
        mirrors(op_next(s, op), run_commands(g, op_commands(s, op))),
{
    lemma_run_empty(g);
    match op {
        CacheOp::BindBuffer(b) => {
            if s.vertex_buffer != Some(b) {
                lemma_run_single(g, GlCommand::BindBuffer { target: gl::ARRAY_BUFFER, buffer: b });
            }
        },
        _ => {},
    }
}

proof fn lemma_bind_index_buffer_keeps_mirror(s: CacheState, g: GlModel, op: CacheOp)
    requires
        valid_state(s),
        op_allowed(op),
        mirrors(s, g),
        !op_forgets_stencil(s, op),
        op is BindIndexBuffer,
    ensures
        mirrors(op_next(s, op), run_commands(g, op_commands(s, op))),
{
    lemma_run_empty(g);
    match op {
        CacheOp::BindIndexBuffer(b) => {
            if s.index_buffer != Some(b) {
                lemma_run_single(
                    g,
                    GlCommand::BindBuffer { target: gl::ELEMENT_ARRAY_BUFFER, buffer: b },
                );
            }
        },
        _ => {},
    }
}

proof fn lemma_bind_texture_keeps_mirror(s: CacheState, g: GlModel, op: CacheOp)
    requires
        valid_state(s),
        op_allowed(op),
        mirrors(s, g),
        !op_forgets_stencil(s, op),
        op is BindTexture,
    ensures
        mirrors(op_next(s, op), run_commands(g, op_commands(s, op))),
{
    lemma_run_empty(g);
    match op {
        CacheOp::BindTexture { slot, target, texture } => {
            let store = CachedTexture { target, texture };
            if s.textures[slot as int] != Some(store) {
                let a = GlCommand::ActiveTexture { unit: (slot + gl::TEXTURE0) as u32 };
                let b = GlCommand::BindTexture { target, texture };
                lemma_run_two(g, a, b);
                let g2 = apply_command(apply_command(g, a), b);
                let s2 = op_next(s, op);
                assert forall|i: int|
                    0 <= i < s2.textures.len() implies match #[trigger] s2.textures[i] {
                        Some(t) => texture_bound(g2, i, t),
                        None => true,
                    } by {
                    if i != slot {
                        assert(s2.textures[i] == s.textures[i]);
                        match s.textures[i] {
                            Some(t) => {
                                assert(texture_bound(g, i, t));
                                assert(((i + gl::TEXTURE0) as u32, t.target) != (
                                    (slot + gl::TEXTURE0) as u32,
                                    target,
                                ));
                            },
                            None => {},
                        }
                    }
                }
            }
        },
        _ => {},
    }
}

proof fn lemma_bind_program_keeps_mirror(s: CacheState, g: GlModel, op: CacheOp)
    requires
        valid_state(s),
        op_allowed(op),
        mirrors(s, g),
        !op_forgets_stencil(s, op),
        op is BindProgram,
    ensures
        mirrors(op_next(s, op), run_commands(g, op_commands(s, op))),
{
    lemma_run_empty(g);
    match op {
        CacheOp::BindProgram(p) => {
            if s.program != Some(p) {
                lemma_run_single(g, GlCommand::UseProgram { program: p });
            }
        },
        _ => {},
    }
}

proof fn lemma_set_blend_keeps_mirror(s: CacheState, g: GlModel, op: CacheOp)
    requires
        valid_state(s),
        op_allowed(op),
        mirrors(s, g),
        !op_forgets_stencil(s, op),
        op is SetBlend,
    ensures
        mirrors(op_next(s, op), run_commands(g, op_commands(s, op))),
{
    lemma_run_empty(g);
    match op {
        CacheOp::SetBlend(blend) => {
            if s.blend != blend {
                match blend {
                    Blending::Disabled => {
                        lemma_run_single(g, GlCommand::Disable { cap: gl::BLEND });
                    },
                    Blending::All(f) => {
                        let c1 = GlCommand::BlendFunc {
                            src: blend_factor_gl(f.source),
                            dst: blend_factor_gl(f.dest),
                        };
                        let c2 = GlCommand::BlendEquation { mode: blend_equation_gl(f.equation) };
                        if s.blend == Blending::Disabled {
                            let c0 = GlCommand::Enable { cap: gl::BLEND };
                            assert(op_commands(s, op) =~= seq![c0, c1, c2]);
                            lemma_run_three(g, c0, c1, c2);
                        } else {
                            assert(op_commands(s, op) =~= seq![c1, c2]);
                            lemma_run_two(g, c1, c2);
                        }
                    },
                    Blending::Separate { color, alpha } => {
                        let c1 = GlCommand::BlendFuncSeparate {
                            src_rgb: blend_factor_gl(color.source),
                            dst_rgb: blend_factor_gl(color.dest),
                            src_alpha: blend_factor_gl(alpha.source),
                            dst_alpha: blend_factor_gl(alpha.dest),
                        };
                        let c2 = GlCommand::BlendEquationSeparate {
                            mode_rgb: blend_equation_gl(color.equation),
                            mode_alpha: blend_equation_gl(alpha.equation),
                        };
                        if s.blend == Blending::Disabled {
                            let c0 = GlCommand::Enable { cap: gl::BLEND };
                            assert(op_commands(s, op) =~= seq![c0, c1, c2]);
                            lemma_run_three(g, c0, c1, c2);
                        } else {
                            assert(op_commands(s, op) =~= seq![c1, c2]);
                            lemma_run_two(g, c1, c2);
                        }
                    },
                }
            }
        },
        _ => {},
    }
}

proof fn lemma_set_stencil_keeps_mirror(s: CacheState, g: GlModel, op: CacheOp)
    requires
        valid_state(s),
        op_allowed(op),
        mirrors(s, g),
        !op_forgets_stencil(s, op),
        op is SetStencil,
    ensures
        mirrors(op_next(s, op), run_commands(g, op_commands(s, op))),
{
    lemma_run_empty(g);
    match op {
        CacheOp::SetStencil(stencil) => {
            if s.stencil != stencil {
                let st = stencil->0;
                let enable = if s.stencil is None {
                    seq![GlCommand::Enable { cap: gl::STENCIL_TEST }]
                } else {
                    seq![]
                };
                let g1 = run_commands(g, enable);
                if s.stencil is None {
                    lemma_run_single(g, GlCommand::Enable { cap: gl::STENCIL_TEST });
                }
                assert(g1.enabled.contains(gl::STENCIL_TEST));
                assert(g1.enabled.remove(gl::STENCIL_TEST) == g.enabled.remove(gl::STENCIL_TEST));
                lemma_stencil_face_commands(g1, gl::FRONT, st.front);
                let g2 = run_commands(g1, stencil_face_commands(gl::FRONT, st.front));
                lemma_stencil_face_commands(g2, gl::BACK, st.back);
                let g3 = run_commands(g2, stencil_face_commands(gl::BACK, st.back));
                lemma_run_append(g, enable, stencil_face_commands(gl::FRONT, st.front));
                lemma_run_append(
                    g,
                    enable + stencil_face_commands(gl::FRONT, st.front),
                    stencil_face_commands(gl::BACK, st.back),
                );
                assert(run_commands(g, op_commands(s, op)) == g3);
            }
        },
        _ => {},
    }
}

proof fn lemma_set_depth_test_keeps_mirror(s: CacheState, g: GlModel, op: CacheOp)
    requires
        valid_state(s),
        op_allowed(op),
        mirrors(s, g),
        !op_forgets_stencil(s, op),
        op is SetDepthTest,
    ensures
        mirrors(op_next(s, op), run_commands(g, op_commands(s, op))),
{
    lemma_run_empty(g);
    match op {
        CacheOp::SetDepthTest(depth_test) => {
            if s.depth_test != depth_test {
                match (s.depth_test, depth_test) {
                    (None, Some(func)) => {
                        lemma_run_two(
                            g,
                            GlCommand::Enable { cap: gl::DEPTH_TEST },
                            GlCommand::DepthFunc { func: comparison_gl(func) },
                        );
                    },
                    (Some(_), None) => {
                        lemma_run_single(g, GlCommand::Disable { cap: gl::DEPTH_TEST });
                    },
                    (Some(_), Some(func)) => {
                        lemma_run_single(g, GlCommand::DepthFunc { func: comparison_gl(func) });
                    },
                    (None, None) => {},
                }
            }
        },
        _ => {},
    }
}

proof fn lemma_set_front_face_order_keeps_mirror(s: CacheState, g: GlModel, op: CacheOp)
    requires
        valid_state(s),
        op_allowed(op),
        mirrors(s, g),
        !op_forgets_stencil(s, op),
        op is SetFrontFaceOrder,
    ensures
        mirrors(op_next(s, op), run_commands(g, op_commands(s, op))),
{
    lemma_run_empty(g);
    match op {
        CacheOp::SetFrontFaceOrder(order) => {
            if s.front_face_order != order {
                match order {
                    FrontFaceOrder::Clockwise => {
                        lemma_run_single(g, GlCommand::FrontFace { mode: gl::CW });
                    },
                    FrontFaceOrder::CounterClockwise => {
                        lemma_run_single(g, GlCommand::FrontFace { mode: gl::CCW });
                    },
                }
            }
        },
        _ => {},
    }
}

proof fn lemma_set_cull_face_keeps_mirror(s: CacheState, g: GlModel, op: CacheOp)
    requires
        valid_state(s),
        op_allowed(op),
        mirrors(s, g),
        !op_forgets_stencil(s, op),
        op is SetCullFace,
    ensures
        mirrors(op_next(s, op), run_commands(g, op_commands(s, op))),
{
    lemma_run_empty(g);
    match op {
        CacheOp::SetCullFace(cull) => {
            if s.cull_face != cull {
                match cull {
                    CullFace::Nothing => {
                        lemma_run_single(g, GlCommand::Disable { cap: gl::CULL_FACE });
                    },
                    CullFace::Front => {
                        lemma_run_two(
                            g,
                            GlCommand::Enable { cap: gl::CULL_FACE },
                            GlCommand::CullFace { mode: gl::FRONT },
                        );
                    },
                    CullFace::Back => {
                        lemma_run_two(
                            g,
                            GlCommand::Enable { cap: gl::CULL_FACE },
                            GlCommand::CullFace { mode: gl::BACK },
                        );
                    },
                }
            }
        },
        _ => {},
    }
}

proof fn lemma_set_color_write_keeps_mirror(s: CacheState, g: GlModel, op: CacheOp)
    requires
        valid_state(s),
        op_allowed(op),
        mirrors(s, g),
        !op_forgets_stencil(s, op),
        op is SetColorWrite,
    ensures
        mirrors(op_next(s, op), run_commands(g, op_commands(s, op))),
{
    lemma_run_empty(g);
    match op {
        CacheOp::SetColorWrite(mask) => {
            if s.color_write != mask {
                lemma_run_single(
                    g,
                    GlCommand::ColorMask { red: mask.0, green: mask.1, blue: mask.2, alpha: mask.3 },
                );
            }
        },
        _ => {},
    }
}


/// The cache already holds what `op` requests.
pub open spec fn op_cached(s: CacheState, op: CacheOp) -> bool {
    match op {
        CacheOp::BindBuffer(b) => s.vertex_buffer == Some(b),
        CacheOp::BindIndexBuffer(b) => s.index_buffer == Some(b),
        CacheOp::BindTexture { slot, target, texture } => s.textures[slot as int] == Some(
            CachedTexture { target, texture },
        ),
        CacheOp::BindProgram(p) => s.program == Some(p),
        CacheOp::SetBlend(blend) => s.blend == blend,
        CacheOp::SetStencil(stencil) => s.stencil == stencil,
        CacheOp::SetDepthTest(depth_test) => s.depth_test == depth_test,
        CacheOp::SetFrontFaceOrder(order) => s.front_face_order == order,
        CacheOp::SetCullFace(cull) => s.cull_face == cull,
        CacheOp::SetColorWrite(mask) => s.color_write == mask,
    }
}

/// `op` asks for a change that the cache sends to GL but does not record: a
/// different depth test, a different front-face order, or disabling a
/// recorded stencil test.
pub open spec fn op_unrecorded(s: CacheState, op: CacheOp) -> bool {
    match op {
        CacheOp::SetDepthTest(depth_test) => s.depth_test != depth_test,
        CacheOp::SetFrontFaceOrder(order) => s.front_face_order != order,
        CacheOp::SetStencil(None) => s.stencil is Some,
        _ => false,
    }
}

/// A request costs no GL call exactly when the cache already holds it.
pub proof fn lemma_silent_iff_cached(s: CacheState, op: CacheOp)
    requires
        valid_state(s),
        op_allowed(op),
    ensures
        op_commands(s, op).len() == 0 <==> op_cached(s, op),
{
    match op {
        CacheOp::SetBlend(blend) => {
            if s.blend != blend {
                match blend {
                    Blending::Disabled => {},
                    _ => {
                        assert(op_commands(s, op).len() >= 2);
                    },
                }
            }
        },
        CacheOp::SetStencil(stencil) => {
            if s.stencil != stencil {
                match stencil {
                    None => {},
                    Some(st) => {
                        assert(op_commands(s, op).len() >= 6);
                    },
                }
            }
        },
        _ => {},
    }
}

/// After a request the cache holds it, so asking again costs no GL call;
/// the requests that are not recorded leave the cache as it was, so asking
/// again sends the same calls again.
pub proof fn lemma_repeat_request(s: CacheState, op: CacheOp)
    requires
        valid_state(s),
        op_allowed(op),
    ensures
        !op_unrecorded(s, op) ==> op_cached(op_next(s, op), op),
        !op_unrecorded(s, op) ==> op_commands(op_next(s, op), op).len() == 0,
        op_unrecorded(s, op) ==> op_next(s, op) == s,
        op_unrecorded(s, op) ==> op_commands(op_next(s, op), op).len() > 0,
{
    let s2 = op_next(s, op);
    assert(valid_state(s2));
    lemma_silent_iff_cached(s2, op);
}

/// No request changes the recorded depth test or front-face order: they
/// keep the values of a fresh cache forever.
pub proof fn lemma_depth_and_winding_never_recorded(s: CacheState, op: CacheOp)
    ensures
        op_next(s, op).depth_test == s.depth_test,
        op_next(s, op).front_face_order == s.front_face_order,
{
}

/// Every request keeps the cache state well formed.
pub proof fn lemma_op_keeps_valid(s: CacheState, op: CacheOp)
    requires
        valid_state(s),
        op_allowed(op),
    ensures
        valid_state(op_next(s, op)),
{
}


/// The cache state after the requests `ops`, in order.
pub open spec fn ops_state(s: CacheState, ops: Seq<CacheOp>) -> CacheState
    decreases ops.len(),
{
    if ops.len() == 0 {
        s
    } else {
        op_next(ops_state(s, ops.drop_last()), ops.last())
    }
}

/// The commands the cache issues for the requests `ops`, in order.
pub open spec fn ops_commands(s: CacheState, ops: Seq<CacheOp>) -> Seq<GlCommand>
    decreases ops.len(),
{
    if ops.len() == 0 {
        seq![]
    } else {
        ops_commands(s, ops.drop_last()) + op_commands(
            ops_state(s, ops.drop_last()),
            ops.last(),
        )
    }
}

/// None of `ops` disables a stencil test that the cache records at that point.
pub open spec fn ops_keep_stencil_recorded(s: CacheState, ops: Seq<CacheOp>) -> bool {
    forall|i: int| 0 <= i < ops.len() ==> !op_forgets_stencil(ops_state(s, ops.take(i)), #[trigger] ops[i])
}

/// Every request of `ops` can be carried out.
pub open spec fn ops_allowed(ops: Seq<CacheOp>) -> bool {
    forall|i: int| 0 <= i < ops.len() ==> op_allowed(#[trigger] ops[i])
}

/// A run of requests keeps the cache in agreement with the GL context when
/// none of them disables a recorded stencil test.
pub proof fn lemma_ops_keep_mirror(s: CacheState, g: GlModel, ops: Seq<CacheOp>)
    requires
        valid_state(s),
        ops_allowed(ops),
        mirrors(s, g),
        ops_keep_stencil_recorded(s, ops),
    ensures
        valid_state(ops_state(s, ops)),
        mirrors(ops_state(s, ops), run_commands(g, ops_commands(s, ops))),
    decreases ops.len(),
{
    if ops.len() == 0 {
        lemma_run_empty(g);
    } else {
        let prefix = ops.drop_last();
        assert forall|i: int| 0 <= i < prefix.len() implies !op_forgets_stencil(
            ops_state(s, prefix.take(i)),
            #[trigger] prefix[i],
        ) by {
            assert(prefix.take(i) =~= ops.take(i));
            assert(prefix[i] == ops[i]);
        }
        assert forall|i: int| 0 <= i < prefix.len() implies op_allowed(#[trigger] prefix[i]) by {
            assert(prefix[i] == ops[i]);
        }
        lemma_ops_keep_mirror(s, g, prefix);
        let s1 = ops_state(s, prefix);
        let g1 = run_commands(g, ops_commands(s, prefix));
        assert(ops.take(ops.len() - 1) =~= prefix);
        assert(op_allowed(ops[ops.len() - 1]));
        lemma_op_keeps_mirror(s1, g1, ops.last());
        lemma_run_append(g, ops_commands(s, prefix), op_commands(s1, ops.last()));
    }
}

/// Requests that are not stencil requests leave the recorded stencil test alone.
pub proof fn lemma_ops_keep_stencil(s: CacheState, ops: Seq<CacheOp>)
    requires
        forall|i: int| 0 <= i < ops.len() ==> !(#[trigger] ops[i] is SetStencil),
    ensures
        ops_state(s, ops).stencil == s.stencil,
    decreases ops.len(),
{
    if ops.len() > 0 {
        let prefix = ops.drop_last();
        assert forall|i: int| 0 <= i < prefix.len() implies !(#[trigger] prefix[i] is SetStencil) by {
            assert(prefix[i] == ops[i]);
        }
        lemma_ops_keep_stencil(s, prefix);
        assert(!(ops[ops.len() - 1] is SetStencil));
    }
}

/// Running the commands of one stencil face sets exactly that face.
proof fn lemma_stencil_face_commands(g: GlModel, face: u32, st: StencilFaceState)
    requires
        face == gl::FRONT || face == gl::BACK,
    ensures
        ({
            let g2 = run_commands(g, stencil_face_commands(face, st));
            &&& face_mirrors(stencil_face(g2, face), st)
            &&& g2 == with_stencil_face(g, face, stencil_face(g2, face))
        }),
{
    let cmds = stencil_face_commands(face, st);
    lemma_run_three(g, cmds[0], cmds[1], cmds[2]);
    assert(cmds =~= seq![cmds[0], cmds[1], cmds[2]]);
}

/// Appends the commands that set one face of the stencil test.
fn push_stencil_face(cmds: &mut Vec<GlCommand>, face: u32, st: StencilFaceState)
    ensures
        final(cmds)@ == old(cmds)@ + stencil_face_commands(face, st),
{
    cmds.push(
        GlCommand::StencilOpSeparate {
            face,
            fail: st.fail_op.into(),
            depth_fail: st.depth_fail_op.into(),
            pass: st.pass_op.into(),
        },
    );
    cmds.push(
        GlCommand::StencilFuncSeparate {
            face,
            func: st.test_func.into(),
            reference: st.test_ref,
            mask: st.test_mask,
        },
    );
    cmds.push(GlCommand::StencilMaskSeparate { face, mask: st.write_mask });
}

/// The GL state cache.
#[derive(Debug)]
pub struct GlCache {
    index_buffer: Option<u32>,
    vertex_buffer: Option<u32>,
    textures: Vec<Option<CachedTexture>>,
    program: Option<u32>,
    front_face_order: FrontFaceOrder,
    depth_test: Option<Comparison>,
    blend: Blending,
    stencil: Option<StencilState>,
    color_write: ColorMask,
    cull_face: CullFace,
}

impl View for GlCache {
    type V = CacheState;

    closed spec fn view(&self) -> CacheState {
        CacheState {
            index_buffer: self.index_buffer,
            vertex_buffer: self.vertex_buffer,
            textures: self.textures@,
            program: self.program,
            front_face_order: self.front_face_order,
            depth_test: self.depth_test,
            blend: self.blend,
            stencil: self.stencil,
            color_write: self.color_write,
            cull_face: self.cull_face,
        }
    }
}

impl GlCache {
    #[verifier::type_invariant]
    closed spec fn slots_tracked(&self) -> bool {
        self.textures.len() == MAX_SHADERSTAGE_IMAGES
    }

    /// A cache that believes the GL context is in its initial state.
    pub fn new() -> (r: GlCache)
        ensures
            r@ == initial_state(),
            valid_state(r@),
    {
        let mut textures: Vec<Option<CachedTexture>> = Vec::new();
        let mut i: usize = 0;
        while i < MAX_SHADERSTAGE_IMAGES
            invariant
                i <= MAX_SHADERSTAGE_IMAGES,
                textures@ == Seq::new(i as nat, |k: int| None::<CachedTexture>),
            decreases MAX_SHADERSTAGE_IMAGES - i,
        {
            textures.push(None);
            i = i + 1;
        }
        GlCache {
            index_buffer: None,
            vertex_buffer: None,
            textures,
            program: None,
            front_face_order: FrontFaceOrder::CounterClockwise,
            depth_test: None,
            blend: Blending::Disabled,
            stencil: None,
            color_write: (true, true, true, true),
            cull_face: CullFace::Nothing,
        }
    }

    /// Binds `buffer` to `ARRAY_BUFFER` unless it is bound already.
    pub fn bind_buffer(&mut self, buffer: u32) -> (r: Vec<GlCommand>)
        ensures
            r@ == op_commands(old(self)@, CacheOp::BindBuffer(buffer)),
            final(self)@ == op_next(old(self)@, CacheOp::BindBuffer(buffer)),
            valid_state(old(self)@),
            valid_state(final(self)@),
    {
        proof {
            use_type_invariant(&*self);
        }
        let mut cmds: Vec<GlCommand> = Vec::new();
        if self.vertex_buffer != Some(buffer) {
            self.vertex_buffer = Some(buffer);
            cmds.push(GlCommand::BindBuffer { target: gl::ARRAY_BUFFER, buffer });
        }
        cmds
    }

    /// Binds `buffer` to `ELEMENT_ARRAY_BUFFER` unless it is bound already.
    pub fn bind_index_buffer(&mut self, buffer: u32) -> (r: Vec<GlCommand>)
        ensures
            r@ == op_commands(old(self)@, CacheOp::BindIndexBuffer(buffer)),
            final(self)@ == op_next(old(self)@, CacheOp::BindIndexBuffer(buffer)),
            valid_state(old(self)@),
            valid_state(final(self)@),
    {
        proof {
            use_type_invariant(&*self);
        }
        let mut cmds: Vec<GlCommand> = Vec::new();
        if self.index_buffer != Some(buffer) {
            self.index_buffer = Some(buffer);
            cmds.push(GlCommand::BindBuffer { target: gl::ELEMENT_ARRAY_BUFFER, buffer });
        }
        cmds
    }

    /// Binds `texture` to `target` of texture unit `slot_index` unless it is bound already.
    pub fn bind_texture(&mut self, slot_index: u32, target: u32, texture: u32) -> (r: Vec<GlCommand>)
        requires
            slot_index < MAX_SHADERSTAGE_IMAGES,
        ensures
            r@ == op_commands(
                old(self)@,
                CacheOp::BindTexture { slot: slot_index, target, texture },
            ),
            final(self)@ == op_next(
                old(self)@,
                CacheOp::BindTexture { slot: slot_index, target, texture },
            ),
            valid_state(old(self)@),
            valid_state(final(self)@),
    {
        proof {
            use_type_invariant(&*self);
        }
        let store = CachedTexture { target, texture };
        let mut cmds: Vec<GlCommand> = Vec::new();
        if self.textures[slot_index as usize] != Some(store) {
            cmds.push(GlCommand::ActiveTexture { unit: slot_index + gl::TEXTURE0 });
            cmds.push(GlCommand::BindTexture { target, texture });
            self.textures[slot_index as usize] = Some(store);
        }
        proof {
            assert(final(self)@.textures =~= old(self)@.textures.update(
                slot_index as int,
                Some(store),
            ));
        }
        cmds
    }

    /// Makes `program` current unless it is current already.
    pub fn bind_program(&mut self, program: u32) -> (r: Vec<GlCommand>)
        ensures
            r@ == op_commands(old(self)@, CacheOp::BindProgram(program)),
            final(self)@ == op_next(old(self)@, CacheOp::BindProgram(program)),
            valid_state(old(self)@),
            valid_state(final(self)@),
    {
        proof {
            use_type_invariant(&*self);
        }
        let mut cmds: Vec<GlCommand> = Vec::new();
        if self.program != Some(program) {
            self.program = Some(program);
            cmds.push(GlCommand::UseProgram { program });
        }
        cmds
    }

    /// Brings the blending state to `blend`.
    pub fn set_blend(&mut self, blend: Blending) -> (r: Vec<GlCommand>)
        ensures
            r@ == op_commands(old(self)@, CacheOp::SetBlend(blend)),
            final(self)@ == op_next(old(self)@, CacheOp::SetBlend(blend)),
            valid_state(old(self)@),
            valid_state(final(self)@),
    {
        proof {
            use_type_invariant(&*self);
        }
        let mut cmds: Vec<GlCommand> = Vec::new();
        if self.blend == blend {
            return cmds;
        }
        match blend {
            Blending::Disabled => {
                cmds.push(GlCommand::Disable { cap: gl::BLEND });
            },
            Blending::All(all) => {
                if self.blend == Blending::Disabled {
                    cmds.push(GlCommand::Enable { cap: gl::BLEND });
                }
                cmds.push(GlCommand::BlendFunc { src: all.source.into(), dst: all.dest.into() });
                cmds.push(GlCommand::BlendEquation { mode: all.equation.into() });
            },
            Blending::Separate { color, alpha } => {
                if self.blend == Blending::Disabled {
                    cmds.push(GlCommand::Enable { cap: gl::BLEND });
                }
                cmds.push(
                    GlCommand::BlendFuncSeparate {
                        src_rgb: color.source.into(),
                        dst_rgb: color.dest.into(),
                        src_alpha: alpha.source.into(),
                        dst_alpha: alpha.dest.into(),
                    },
                );
                cmds.push(
                    GlCommand::BlendEquationSeparate {
                        mode_rgb: color.equation.into(),
                        mode_alpha: alpha.equation.into(),
                    },
                );
            },
        }
        self.blend = blend;
        cmds
    }

    /// Brings the stencil test to `stencil_test`.
    ///
    /// Disabling the test is sent to GL but not recorded in the cache.
    pub fn set_stencil(&mut self, stencil_test: Option<StencilState>) -> (r: Vec<GlCommand>)
        ensures
            r@ == op_commands(old(self)@, CacheOp::SetStencil(stencil_test)),
            final(self)@ == op_next(old(self)@, CacheOp::SetStencil(stencil_test)),
            valid_state(old(self)@),
            valid_state(final(self)@),
    {
        proof {
            use_type_invariant(&*self);
        }
        let mut cmds: Vec<GlCommand> = Vec::new();
        if self.stencil == stencil_test {
            return cmds;
        }
        let stencil = match stencil_test {
            Some(stencil) => stencil,
            None => {
                cmds.push(GlCommand::Disable { cap: gl::STENCIL_TEST });
                return cmds;
            },
        };
        if self.stencil.is_none() {
            cmds.push(GlCommand::Enable { cap: gl::STENCIL_TEST });
        }
        push_stencil_face(&mut cmds, gl::FRONT, stencil.front);
        push_stencil_face(&mut cmds, gl::BACK, stencil.back);
        self.stencil = stencil_test;
        cmds
    }

    /// Requests the depth test `depth_test`; the cache does not record it.
    pub fn set_depth_test(&mut self, depth_test: Option<Comparison>) -> (r: Vec<GlCommand>)
        ensures
            r@ == op_commands(old(self)@, CacheOp::SetDepthTest(depth_test)),
            final(self)@ == op_next(old(self)@, CacheOp::SetDepthTest(depth_test)),
            valid_state(old(self)@),
            valid_state(final(self)@),
    {
        proof {
            use_type_invariant(&*self);
        }
        let mut cmds: Vec<GlCommand> = Vec::new();
        if self.depth_test == depth_test {
            return cmds;
        }
        match (self.depth_test, depth_test) {
            (None, Some(func)) => {
                cmds.push(GlCommand::Enable { cap: gl::DEPTH_TEST });
                cmds.push(GlCommand::DepthFunc { func: func.into() });
            },
            (Some(_), None) => {
                cmds.push(GlCommand::Disable { cap: gl::DEPTH_TEST });
            },
            (Some(_), Some(func)) => {
                cmds.push(GlCommand::DepthFunc { func: func.into() });
            },
            _ => {},
        }
        cmds
    }

    /// Requests the front-face winding `front_face_order`; the cache does not record it.
    pub fn set_front_face_order(&mut self, front_face_order: FrontFaceOrder) -> (r: Vec<GlCommand>)
        ensures
            r@ == op_commands(old(self)@, CacheOp::SetFrontFaceOrder(front_face_order)),
            final(self)@ == op_next(old(self)@, CacheOp::SetFrontFaceOrder(front_face_order)),
            valid_state(old(self)@),
            valid_state(final(self)@),
    {
        proof {
            use_type_invariant(&*self);
        }
        let mut cmds: Vec<GlCommand> = Vec::new();
        if self.front_face_order == front_face_order {
            return cmds;
        }
        match front_face_order {
            FrontFaceOrder::Clockwise => {
                cmds.push(GlCommand::FrontFace { mode: gl::CW });
            },
            FrontFaceOrder::CounterClockwise => {
                cmds.push(GlCommand::FrontFace { mode: gl::CCW });
            },
        }
        cmds
    }

    /// Brings face culling to `cull_face`.
    pub fn set_cull_face(&mut self, cull_face: CullFace) -> (r: Vec<GlCommand>)
        ensures
            r@ == op_commands(old(self)@, CacheOp::SetCullFace(cull_face)),
            final(self)@ == op_next(old(self)@, CacheOp::SetCullFace(cull_face)),
            valid_state(old(self)@),
            valid_state(final(self)@),
    {
        proof {
            use_type_invariant(&*self);
        }
        let mut cmds: Vec<GlCommand> = Vec::new();
        if self.cull_face == cull_face {
            return cmds;
        }
        match cull_face {
            CullFace::Nothing => {
                cmds.push(GlCommand::Disable { cap: gl::CULL_FACE });
            },
            CullFace::Front => {
                cmds.push(GlCommand::Enable { cap: gl::CULL_FACE });
                cmds.push(GlCommand::CullFace { mode: gl::FRONT });
            },
            CullFace::Back => {
                cmds.push(GlCommand::Enable { cap: gl::CULL_FACE });
                cmds.push(GlCommand::CullFace { mode: gl::BACK });
            },
        }
        self.cull_face = cull_face;
        cmds
    }

    /// Brings the color write mask to `color_write`.
    pub fn set_color_write(&mut self, color_write: ColorMask) -> (r: Vec<GlCommand>)
        ensures
            r@ == op_commands(old(self)@, CacheOp::SetColorWrite(color_write)),
            final(self)@ == op_next(old(self)@, CacheOp::SetColorWrite(color_write)),
            valid_state(old(self)@),
            valid_state(final(self)@),
    {
        proof {
            use_type_invariant(&*self);
        }
        let mut cmds: Vec<GlCommand> = Vec::new();
        let (r, g, b, a) = color_write;
        let (cr, cg, cb, ca) = self.color_write;
        if cr == r && cg == g && cb == b && ca == a {
            return cmds;
        }
        cmds.push(GlCommand::ColorMask { red: r, green: g, blue: b, alpha: a });
        self.color_write = color_write;
        cmds
    }

    /// Carries out one request.
    fn apply_op(&mut self, op: CacheOp) -> (r: Vec<GlCommand>)
        requires
            op_allowed(op),
        ensures
            r@ == op_commands(old(self)@, op),
            final(self)@ == op_next(old(self)@, op),
            valid_state(old(self)@),
            valid_state(final(self)@),
    {
        match op {
            CacheOp::BindBuffer(b) => self.bind_buffer(b),
            CacheOp::BindIndexBuffer(b) => self.bind_index_buffer(b),
            CacheOp::BindTexture { slot, target, texture } => self.bind_texture(slot, target, texture),
            CacheOp::BindProgram(p) => self.bind_program(p),
            CacheOp::SetBlend(blend) => self.set_blend(blend),
            CacheOp::SetStencil(stencil) => self.set_stencil(stencil),
            CacheOp::SetDepthTest(depth_test) => self.set_depth_test(depth_test),
            CacheOp::SetFrontFaceOrder(order) => self.set_front_face_order(order),
            CacheOp::SetCullFace(cull) => self.set_cull_face(cull),
            CacheOp::SetColorWrite(mask) => self.set_color_write(mask),
        }
    }

    /// Carries out the requests `ops`, in order, and returns all the commands.
    pub(crate) fn apply_ops(&mut self, ops: &Vec<CacheOp>) -> (r: Vec<GlCommand>)
        requires
            ops_allowed(ops@),
        ensures
            r@ == ops_commands(old(self)@, ops@),
            final(self)@ == ops_state(old(self)@, ops@),
            valid_state(old(self)@),
            valid_state(final(self)@),
    {
        proof {
            use_type_invariant(&*self);
        }
        let ghost s0 = self@;
        let mut cmds: Vec<GlCommand> = Vec::new();
        let mut i: usize = 0;
        while i < ops.len()
            invariant
                i <= ops@.len(),
                ops_allowed(ops@),
                self@ == ops_state(s0, ops@.take(i as int)),
                cmds@ == ops_commands(s0, ops@.take(i as int)),
                valid_state(self@),
            decreases ops@.len() - i,
        {
            let op = ops[i];
            assert(op_allowed(ops@[i as int]));
            let mut step = self.apply_op(op);
            proof {
                assert(ops@.take(i + 1).drop_last() =~= ops@.take(i as int));
                assert(ops@.take(i + 1).last() == op);
            }
            cmds.append(&mut step);
            i = i + 1;
        }
        proof {
            assert(ops@.take(ops@.len() as int) =~= ops@);
        }
        cmds
    }

    /// Forgets everything the cache remembers and returns the commands that
    /// bring the GL context back to the state a fresh cache assumes.
    pub fn reset(&mut self) -> (r: Vec<GlCommand>)
        ensures
            final(self)@ == initial_state(),
            r@ == reset_commands(),
            valid_state(old(self)@),
            valid_state(final(self)@),
    {
        proof {
            use_type_invariant(&*self);
        }
        *self = GlCache::new();
        let mut cmds: Vec<GlCommand> = Vec::new();
        cmds.push(GlCommand::Disable { cap: gl::BLEND });
        cmds.push(GlCommand::Disable { cap: gl::STENCIL_TEST });
        cmds.push(GlCommand::Disable { cap: gl::CULL_FACE });
        cmds.push(GlCommand::ColorMask { red: true, green: true, blue: true, alpha: true });
        cmds
    }
}

} // verus!

//! The decisions a pipeline makes when it is applied and drawn with.

use vstd::prelude::*;
use crate::cache::{
    blend_mirrors, cull_mirrors, lemma_ops_keep_mirror, lemma_ops_keep_stencil, mirrors,
    op_commands, stencil_mirrors, op_forgets_stencil, ops_allowed,
    ops_commands, ops_keep_stencil_recorded, ops_state, valid_state, CacheOp, GlCache, GlCommand,
};
use crate::gl_state::{lemma_run_append, lemma_run_empty, lemma_run_single, lemma_run_two, run_commands, GlModel};
use crate::gl;
use crate::pipeline_params::{
    comparison_gl, Blending, ColorMask, Comparison, CullFace, FrontFaceOrder, PrimitiveType,
    StencilState,
};

verus! {

/// The cache requests that make a pipeline current, in the order they are made.
pub open spec fn pipeline_ops(
    program: u32,
    vertex_buffer: u32,
    index_buffer: u32,
    depth_test: Option<Comparison>,
    front_face_order: FrontFaceOrder,
    cull_face: CullFace,
    blending: Blending,
    stencil_test: Option<StencilState>,
    color_write: ColorMask,
) -> Seq<CacheOp> {
    seq![
        CacheOp::BindProgram(program),
        CacheOp::BindBuffer(vertex_buffer),
        CacheOp::BindIndexBuffer(index_buffer),
        CacheOp::SetDepthTest(depth_test),
        CacheOp::SetFrontFaceOrder(front_face_order),
        CacheOp::SetCullFace(cull_face),
        CacheOp::SetBlend(blending),
        CacheOp::SetStencil(stencil_test),
        CacheOp::SetColorWrite(color_write),
    ]
}

/// Makes a pipeline current through the cache: binds its program and
/// buffers and brings the fixed-function settings to the pipeline's, and
/// returns the GL commands that are needed.
pub fn apply_pipeline_state(
    cache: &mut GlCache,
    program: u32,
    vertex_buffer: u32,
    index_buffer: u32,
    depth_test: Option<Comparison>,
    front_face_order: FrontFaceOrder,
    cull_face: CullFace,
    blending: Blending,
    stencil_test: Option<StencilState>,
    color_write: ColorMask,
) -> (r: Vec<GlCommand>)
    ensures
        r@ == ops_commands(
            old(cache)@,
            pipeline_ops(
                program,
                vertex_buffer,
                index_buffer,
                depth_test,
                front_face_order,
                cull_face,
                blending,
                stencil_test,
                color_write,
            ),
        ),
        final(cache)@ == ops_state(
            old(cache)@,
            pipeline_ops(
                program,
                vertex_buffer,
                index_buffer,
                depth_test,
                front_face_order,
                cull_face,
                blending,
                stencil_test,
                color_write,
            ),
        ),
        valid_state(old(cache)@),
        valid_state(final(cache)@),
{
    let ops = vec![
        CacheOp::BindProgram(program),
        CacheOp::BindBuffer(vertex_buffer),
        CacheOp::BindIndexBuffer(index_buffer),
        CacheOp::SetDepthTest(depth_test),
        CacheOp::SetFrontFaceOrder(front_face_order),
        CacheOp::SetCullFace(cull_face),
        CacheOp::SetBlend(blending),
        CacheOp::SetStencil(stencil_test),
        CacheOp::SetColorWrite(color_write),
    ];
    proof {
        assert(ops@ =~= pipeline_ops(
            program,
            vertex_buffer,
            index_buffer,
            depth_test,
            front_face_order,
            cull_face,
            blending,
            stencil_test,
            color_write,
        ));
    }
    cache.apply_ops(&ops)
}


/// Making a pipeline current keeps the cache in agreement with the GL
/// context, unless the pipeline has no stencil test while the cache records one.
pub proof fn lemma_pipeline_keeps_mirror(
    s: crate::cache::CacheState,
    g: GlModel,
    program: u32,
    vertex_buffer: u32,
    index_buffer: u32,
    depth_test: Option<Comparison>,
    front_face_order: FrontFaceOrder,
    cull_face: CullFace,
    blending: Blending,
    stencil_test: Option<StencilState>,
    color_write: ColorMask,
)
    requires
        valid_state(s),
        mirrors(s, g),
        !(stencil_test is None && s.stencil is Some),
    ensures
        ({
            let ops = pipeline_ops(
                program,
                vertex_buffer,
                index_buffer,
                depth_test,
                front_face_order,
                cull_face,
                blending,
                stencil_test,
                color_write,
            );
            mirrors(ops_state(s, ops), run_commands(g, ops_commands(s, ops)))
        }),
{
    let ops = pipeline_ops(
        program,
        vertex_buffer,
        index_buffer,
        depth_test,
        front_face_order,
        cull_face,
        blending,
        stencil_test,
        color_write,
    );
    assert(ops_allowed(ops));
    let before = ops.take(7);
    assert forall|i: int| 0 <= i < before.len() implies !(#[trigger] before[i] is SetStencil) by {}
    lemma_ops_keep_stencil(s, before);
    assert forall|i: int| 0 <= i < ops.len() implies !op_forgets_stencil(
        ops_state(s, ops.take(i)),
        #[trigger] ops[i],
    ) by {
        if i == 7 {
            assert(ops.take(7) == before);
        }
    }
    assert(ops_keep_stencil_recorded(s, ops));
    lemma_ops_keep_mirror(s, g, ops);
}

/// What making a pipeline current leaves in the GL context, starting from a
/// context the cache agrees with: its program and its vertex and index
/// buffers are bound, and blending, the stencil test, face culling and the
/// color mask are the pipeline's. A pipeline without a stencil test leaves
/// the stencil test off, also when the cache still records one.
pub proof fn lemma_pipeline_leaves_bound(
    s: crate::cache::CacheState,
    g: GlModel,
    program: u32,
    vertex_buffer: u32,
    index_buffer: u32,
    depth_test: Option<Comparison>,
    front_face_order: FrontFaceOrder,
    cull_face: CullFace,
    blending: Blending,
    stencil_test: Option<StencilState>,
    color_write: ColorMask,
)
    requires
        valid_state(s),
        mirrors(s, g),
    ensures
        ({
            let ops = pipeline_ops(
                program,
                vertex_buffer,
                index_buffer,
                depth_test,
                front_face_order,
                cull_face,
                blending,
                stencil_test,
                color_write,
            );
            let g2 = run_commands(g, ops_commands(s, ops));
            &&& g2.program == Some(program)
            &&& g2.array_buffer == Some(vertex_buffer)
            &&& g2.element_buffer == Some(index_buffer)
            &&& blend_mirrors(blending, g2)
            &&& stencil_mirrors(stencil_test, g2)
            &&& cull_mirrors(cull_face, g2)
            &&& g2.color_mask == color_write
        }),
{
    let ops = pipeline_ops(
        program,
        vertex_buffer,
        index_buffer,
        depth_test,
        front_face_order,
        cull_face,
        blending,
        stencil_test,
        color_write,
    );
    if !(stencil_test is None && s.stencil is Some) {
        lemma_pipeline_keeps_mirror(
            s,
            g,
            program,
            vertex_buffer,
            index_buffer,
            depth_test,
            front_face_order,
            cull_face,
            blending,
            stencil_test,
            color_write,
        );
        reveal_with_fuel(ops_state, 10);
        let t = ops_state(s, ops);
        assert(t.program == Some(program));
        assert(t.vertex_buffer == Some(vertex_buffer));
        assert(t.index_buffer == Some(index_buffer));
        assert(t.blend == blending);
        assert(t.stencil == stencil_test);
        assert(t.cull_face == cull_face);
        assert(t.color_write == color_write);
    } else {
        lemma_pipeline_turns_stencil_off(
            s,
            g,
            program,
            vertex_buffer,
            index_buffer,
            depth_test,
            front_face_order,
            cull_face,
            blending,
            color_write,
        );
    }
}

/// The cache state after the first seven requests of making a pipeline current.
proof fn lemma_seven_requests_state(
    s: crate::cache::CacheState,
    t7: Seq<CacheOp>,
    program: u32,
    vertex_buffer: u32,
    index_buffer: u32,
    depth_test: Option<Comparison>,
    front_face_order: FrontFaceOrder,
    cull_face: CullFace,
    blending: Blending,
)
    requires
        t7 == seq![
            CacheOp::BindProgram(program),
            CacheOp::BindBuffer(vertex_buffer),
            CacheOp::BindIndexBuffer(index_buffer),
            CacheOp::SetDepthTest(depth_test),
            CacheOp::SetFrontFaceOrder(front_face_order),
            CacheOp::SetCullFace(cull_face),
            CacheOp::SetBlend(blending),
        ],
    ensures
        ops_state(s, t7).program == Some(program),
        ops_state(s, t7).vertex_buffer == Some(vertex_buffer),
        ops_state(s, t7).index_buffer == Some(index_buffer),
        ops_state(s, t7).blend == blending,
        ops_state(s, t7).cull_face == cull_face,
        ops_state(s, t7).color_write == s.color_write,
{
    reveal_with_fuel(ops_state, 8);
}

/// A pipeline without a stencil test made current while the cache records
/// one: GL ends with the stencil test off and everything else the
/// pipeline's.
proof fn lemma_pipeline_turns_stencil_off(
    s: crate::cache::CacheState,
    g: GlModel,
    program: u32,
    vertex_buffer: u32,
    index_buffer: u32,
    depth_test: Option<Comparison>,
    front_face_order: FrontFaceOrder,
    cull_face: CullFace,
    blending: Blending,
    color_write: ColorMask,
)
    requires
        valid_state(s),
        mirrors(s, g),
        s.stencil is Some,
    ensures
        ({
            let ops = pipeline_ops(
                program,
                vertex_buffer,
                index_buffer,
                depth_test,
                front_face_order,
                cull_face,
                blending,
                None,
                color_write,
            );
            let g2 = run_commands(g, ops_commands(s, ops));
            &&& g2.program == Some(program)
            &&& g2.array_buffer == Some(vertex_buffer)
            &&& g2.element_buffer == Some(index_buffer)
            &&& blend_mirrors(blending, g2)
            &&& !g2.enabled.contains(gl::STENCIL_TEST)
            &&& cull_mirrors(cull_face, g2)
            &&& g2.color_mask == color_write
        }),
{
    let ops = pipeline_ops(
        program,
        vertex_buffer,
        index_buffer,
        depth_test,
        front_face_order,
        cull_face,
        blending,
        None,
        color_write,
    );
    // The first seven requests keep the cache in agreement with GL.
    let t7 = ops.take(7);
    let t8 = ops.take(8);
    assert(ops_allowed(t7));
    assert forall|i: int| 0 <= i < t7.len() implies !(#[trigger] t7[i] is SetStencil) by {}
    assert(ops_keep_stencil_recorded(s, t7)) by {
        assert forall|i: int| 0 <= i < t7.len() implies !op_forgets_stencil(
            ops_state(s, t7.take(i)),
            #[trigger] t7[i],
        ) by {
            assert(!(t7[i] is SetStencil));
        }
    }
    lemma_ops_keep_mirror(s, g, t7);
    let s7 = ops_state(s, t7);
    let g7 = run_commands(g, ops_commands(s, t7));
    assert(t7 =~= seq![
        CacheOp::BindProgram(program),
        CacheOp::BindBuffer(vertex_buffer),
        CacheOp::BindIndexBuffer(index_buffer),
        CacheOp::SetDepthTest(depth_test),
        CacheOp::SetFrontFaceOrder(front_face_order),
        CacheOp::SetCullFace(cull_face),
        CacheOp::SetBlend(blending),
    ]);
    lemma_seven_requests_state(
        s,
        t7,
        program,
        vertex_buffer,
        index_buffer,
        depth_test,
        front_face_order,
        cull_face,
        blending,
    );
    lemma_ops_keep_stencil(s, t7);
    // Turning the recorded stencil test off is sent to GL, not recorded.
    assert(t8.drop_last() =~= t7);
    let stencil_cmds = op_commands(s7, ops[7]);
    assert(stencil_cmds == seq![GlCommand::Disable { cap: gl::STENCIL_TEST }]);
    lemma_run_append(g, ops_commands(s, t7), stencil_cmds);
    lemma_run_single(g7, GlCommand::Disable { cap: gl::STENCIL_TEST });
    let g8 = run_commands(g, ops_commands(s, t8));
    let s8 = ops_state(s, t8);
    assert(s8 == s7);
    // The color mask request.
    assert(ops.drop_last() =~= t8);
    let color_cmds = op_commands(s8, ops[8]);
    lemma_run_append(g, ops_commands(s, t8), color_cmds);
    if s7.color_write == color_write {
        lemma_run_empty(g8);
    } else {
        lemma_run_single(
            g8,
            GlCommand::ColorMask {
                red: color_write.0,
                green: color_write.1,
                blue: color_write.2,
                alpha: color_write.3,
            },
        );
    }
}

/// `c` leaves the depth test, the depth function and the front face alone.
pub open spec fn keeps_depth_and_winding(c: GlCommand) -> bool {
    match c {
        GlCommand::Enable { cap } => cap != gl::DEPTH_TEST,
        GlCommand::Disable { cap } => cap != gl::DEPTH_TEST,
        GlCommand::DepthFunc { .. } => false,
        GlCommand::FrontFace { .. } => false,
        _ => true,
    }
}

/// `h` has the depth test, depth function and front face of `g`.
pub open spec fn same_depth_and_winding(g: GlModel, h: GlModel) -> bool {
    &&& h.enabled.contains(gl::DEPTH_TEST) == g.enabled.contains(gl::DEPTH_TEST)
    &&& h.depth_func == g.depth_func
    &&& h.front_face == g.front_face
}

/// Commands that keep the depth and winding state keep it when run in turn.
proof fn lemma_run_keeps_depth_and_winding(g: GlModel, cmds: Seq<GlCommand>)
    requires
        forall|i: int| 0 <= i < cmds.len() ==> keeps_depth_and_winding(#[trigger] cmds[i]),
    ensures
        same_depth_and_winding(g, run_commands(g, cmds)),
    decreases cmds.len(),
{
    if cmds.len() > 0 {
        let prefix = cmds.drop_last();
        assert forall|i: int| 0 <= i < prefix.len() implies keeps_depth_and_winding(
            #[trigger] prefix[i],
        ) by {
            assert(prefix[i] == cmds[i]);
        }
        lemma_run_keeps_depth_and_winding(g, prefix);
        assert(keeps_depth_and_winding(cmds[cmds.len() - 1]));
    }
}

/// Requests other than the depth test and the front-face order send no
/// command that touches the depth or winding state.
proof fn lemma_op_keeps_depth_and_winding(s: crate::cache::CacheState, op: CacheOp)
    requires
        !(op is SetDepthTest),
        !(op is SetFrontFaceOrder),
    ensures
        forall|i: int| 0 <= i < op_commands(s, op).len() ==> keeps_depth_and_winding(
            #[trigger] op_commands(s, op)[i],
        ),
{
    let cmds = op_commands(s, op);
    assert forall|i: int| 0 <= i < cmds.len() implies keeps_depth_and_winding(#[trigger] cmds[i]) by {
        match op {
            CacheOp::SetStencil(Some(st)) => {
                if s.stencil != Some(st) {
                    let enable = if s.stencil is None {
                        seq![GlCommand::Enable { cap: gl::STENCIL_TEST }]
                    } else {
                        seq![]
                    };
                    let front = crate::cache::stencil_face_commands(gl::FRONT, st.front);
                    let back = crate::cache::stencil_face_commands(gl::BACK, st.back);
                    assert(cmds == enable + front + back);
                    if i < enable.len() {
                    } else if i < enable.len() + front.len() {
                        assert(cmds[i] == front[i - enable.len()]);
                    } else {
                        assert(cmds[i] == back[i - enable.len() - front.len()]);
                    }
                }
            },
            CacheOp::SetBlend(blend) => {
                if s.blend != blend && !(blend is Disabled) {
                    let enable = if s.blend == Blending::Disabled {
                        seq![GlCommand::Enable { cap: gl::BLEND }]
                    } else {
                        seq![]
                    };
                    if i >= enable.len() {
                        assert(cmds[i] == cmds.subrange(enable.len() as int, cmds.len() as int)[i
                            - enable.len()]);
                    }
                }
            },
            _ => {},
        }
    }
}

/// Running the commands of requests past the first `k`, none of which is a
/// depth-test or front-face request, keeps the depth and winding state.
proof fn lemma_ops_tail_keeps_depth_and_winding(
    s: crate::cache::CacheState,
    g: GlModel,
    ops: Seq<CacheOp>,
    k: int,
)
    requires
        0 <= k <= ops.len(),
        forall|i: int|
            k <= i < ops.len() ==> !(#[trigger] ops[i] is SetDepthTest) && !(
            ops[i] is SetFrontFaceOrder),
    ensures
        same_depth_and_winding(
            run_commands(g, ops_commands(s, ops.take(k))),
            run_commands(g, ops_commands(s, ops)),
        ),
    decreases ops.len() - k,
{
    if ops.len() == k {
        assert(ops.take(k) =~= ops);
    } else {
        let prefix = ops.drop_last();
        assert(prefix.take(k) =~= ops.take(k));
        assert forall|i: int| k <= i < prefix.len() implies !(#[trigger] prefix[i] is SetDepthTest)
            && !(prefix[i] is SetFrontFaceOrder) by {
            assert(prefix[i] == ops[i]);
        }
        lemma_ops_tail_keeps_depth_and_winding(s, g, prefix, k);
        let last = ops[ops.len() - 1];
        let seg = op_commands(ops_state(s, prefix), last);
        lemma_op_keeps_depth_and_winding(ops_state(s, prefix), last);
        lemma_run_append(g, ops_commands(s, prefix), seg);
        lemma_run_keeps_depth_and_winding(run_commands(g, ops_commands(s, prefix)), seg);
    }
}

/// The depth test and the front-face order that making a pipeline current
/// leaves in GL, for a cache that, as every cache does, still holds the
/// depth test and front-face order of a fresh one: a pipeline with a depth
/// test turns it on with its function, and a clockwise pipeline sets
/// clockwise winding; a pipeline without a depth test, or with
/// counter-clockwise winding, sends nothing and leaves GL as it was.
pub proof fn lemma_pipeline_depth_and_winding(
    s: crate::cache::CacheState,
    g: GlModel,
    program: u32,
    vertex_buffer: u32,
    index_buffer: u32,
    depth_test: Option<Comparison>,
    front_face_order: FrontFaceOrder,
    cull_face: CullFace,
    blending: Blending,
    stencil_test: Option<StencilState>,
    color_write: ColorMask,
)
    requires
        s.depth_test is None,
        s.front_face_order == FrontFaceOrder::CounterClockwise,
    ensures
        ({
            let ops = pipeline_ops(
                program,
                vertex_buffer,
                index_buffer,
                depth_test,
                front_face_order,
                cull_face,
                blending,
                stencil_test,
                color_write,
            );
            let g2 = run_commands(g, ops_commands(s, ops));
            &&& (depth_test matches Some(f) ==> g2.enabled.contains(gl::DEPTH_TEST)
                && g2.depth_func == comparison_gl(f))
            &&& (depth_test is None ==> g2.enabled.contains(gl::DEPTH_TEST) == g.enabled.contains(
                gl::DEPTH_TEST,
            ) && g2.depth_func == g.depth_func)
            &&& (front_face_order == FrontFaceOrder::Clockwise ==> g2.front_face == gl::CW)
            &&& (front_face_order == FrontFaceOrder::CounterClockwise ==> g2.front_face
                == g.front_face)
        }),
{
    let ops = pipeline_ops(
        program,
        vertex_buffer,
        index_buffer,
        depth_test,
        front_face_order,
        cull_face,
        blending,
        stencil_test,
        color_write,
    );
    // The first three requests bind objects only.
    let binds = ops.take(3);
    assert forall|i: int| 0 <= i < 3 implies !(#[trigger] binds[i] is SetDepthTest) && !(
    binds[i] is SetFrontFaceOrder) by {}
    lemma_ops_tail_keeps_depth_and_winding(s, g, binds, 0);
    assert(binds.take(0) =~= Seq::<CacheOp>::empty());
    let g3 = run_commands(g, ops_commands(s, binds));
    reveal_with_fuel(ops_state, 4);
    let s3 = ops_state(s, binds);
    assert(s3.depth_test == s.depth_test && s3.front_face_order == s.front_face_order);
    // The depth test request.
    let t4 = ops.take(4);
    assert(t4.drop_last() =~= binds);
    let d = op_commands(s3, ops[3]);
    lemma_run_append(g, ops_commands(s, binds), d);
    let g4 = run_commands(g3, d);
    match depth_test {
        Some(f) => {
            lemma_run_two(
                g3,
                GlCommand::Enable { cap: gl::DEPTH_TEST },
                GlCommand::DepthFunc { func: comparison_gl(f) },
            );
        },
        None => {
            lemma_run_empty(g3);
        },
    }
    // The front-face request.
    let t5 = ops.take(5);
    assert(t5.drop_last() =~= t4);
    let s4 = ops_state(s, t4);
    assert(s4.front_face_order == s.front_face_order);
    let f5 = op_commands(s4, ops[4]);
    lemma_run_append(g, ops_commands(s, t4), f5);
    let g5 = run_commands(g4, f5);
    if front_face_order == FrontFaceOrder::Clockwise {
        lemma_run_single(g4, GlCommand::FrontFace { mode: gl::CW });
    } else {
        lemma_run_empty(g4);
    }
    // The remaining requests leave depth and winding alone.
    assert forall|i: int| 5 <= i < ops.len() implies !(#[trigger] ops[i] is SetDepthTest) && !(
    ops[i] is SetFrontFaceOrder) by {}
    lemma_ops_tail_keeps_depth_and_winding(s, g, ops, 5);
}

/// How the attribute locations of a linked program disagree with a vertex layout.
#[derive(Debug, Clone, Copy, PartialEq, Eq, Structural)]
pub enum AttributeLocationError {
    /// The program has no attribute of the name of layout attribute `index`.
    Missing { index: usize },
    /// Layout attribute `index` sits at location `found` of the program.
    Misplaced { index: usize, found: u32 },
}

/// Attribute `i` of a layout sits at location `i` of the program.
pub open spec fn location_matches(locations: Seq<Option<u32>>, i: int) -> bool {
    locations[i] matches Some(l) && l == i
}

/// Checks that every attribute of a vertex layout sits at the location of
/// its index in the program: `locations[i]` is the location the program
/// reports for the name of attribute `i`, if it has one. The first
/// attribute that is missing or elsewhere is reported.
pub fn check_attribute_locations(locations: &[Option<u32>]) -> (r: Result<(), AttributeLocationError>)
    ensures
        r is Ok <==> forall|i: int| 0 <= i < locations@.len() ==> location_matches(locations@, i),
        r matches Err(e) ==> {
            let index = match e {
                AttributeLocationError::Missing { index } => index,
                AttributeLocationError::Misplaced { index, .. } => index,
            };
            &&& index < locations@.len()
            &&& !location_matches(locations@, index as int)
            &&& forall|j: int| 0 <= j < index ==> location_matches(locations@, j)
            &&& match e {
                AttributeLocationError::Missing { .. } => locations@[index as int] is None,
                AttributeLocationError::Misplaced { found, .. } => locations@[index as int]
                    == Some(found),
            }
        },
{
    let mut i: usize = 0;
    while i < locations.len()
        invariant
            i <= locations@.len(),
            forall|j: int| 0 <= j < i ==> location_matches(locations@, j),
        decreases locations@.len() - i,
    {
        match locations[i] {
            None => {
                assert(!location_matches(locations@, i as int));
                return Err(AttributeLocationError::Missing { index: i });
            },
            Some(found) => {
                if found as usize != i {
                    assert(!location_matches(locations@, i as int));
                    return Err(AttributeLocationError::Misplaced { index: i, found });
                }
            },
        }
        i = i + 1;
    }
    Ok(())
}

/// The GL primitive mode of `primitive`.
pub open spec fn primitive_mode_gl(primitive: PrimitiveType) -> u32 {
    match primitive {
        PrimitiveType::Triangles => gl::TRIANGLES,
        PrimitiveType::Lines => gl::LINES,
        PrimitiveType::Points => gl::POINTS,
    }
}

/// The GL primitive mode a draw call uses for `primitive`.
pub fn primitive_mode(primitive: PrimitiveType) -> (r: u32)
    ensures
        r == primitive_mode_gl(primitive),
{
    match primitive {
        PrimitiveType::Triangles => gl::TRIANGLES,
        PrimitiveType::Lines => gl::LINES,
        PrimitiveType::Points => gl::POINTS,
    }
}

/// The byte offset of element `base_element` in an index buffer whose
/// elements are `element_size` bytes, as passed to a draw call (the element
/// number is read as an `i32`).
pub fn element_offset(element_size: i32, base_element: u32) -> (r: i32)
    requires
        i32::MIN <= element_size * (base_element as i32) <= i32::MAX,
    ensures
        r == element_size * (base_element as i32),
{
    element_size * base_element as i32
}

} // verus!


use mimiq::cache::{GlCache, GlCommand};
use mimiq::pipeline_params::{
    BlendEquation, BlendFactor, BlendFunc, BlendValue, Blending, CompareFunc, Comparison,
    CullFace, FrontFaceOrder, StencilFaceState, StencilOp, StencilState,
};

fn face(write_mask: u32) -> StencilFaceState {
    StencilFaceState {
        fail_op: StencilOp::Keep,
        depth_fail_op: StencilOp::Zero,
        pass_op: StencilOp::Replace,
        test_func: CompareFunc::Equal,
        test_ref: 3,
        test_mask: 0xff,
        write_mask,
    }
}

#[test]
fn buffer_binding_is_issued_once() {
    let mut cache = GlCache::new();
    assert_eq!(
        cache.bind_buffer(7),
        vec![GlCommand::BindBuffer { target: glow::ARRAY_BUFFER, buffer: 7 }]
    );
    assert!(cache.bind_buffer(7).is_empty());
    assert_eq!(
        cache.bind_buffer(8),
        vec![GlCommand::BindBuffer { target: glow::ARRAY_BUFFER, buffer: 8 }]
    );
    assert_eq!(
        cache.bind_index_buffer(7),
        vec![GlCommand::BindBuffer { target: glow::ELEMENT_ARRAY_BUFFER, buffer: 7 }]
    );
    assert!(cache.bind_index_buffer(7).is_empty());
}

#[test]
fn texture_binding_selects_unit_then_binds() {
    let mut cache = GlCache::new();
    assert_eq!(
        cache.bind_texture(3, glow::TEXTURE_2D, 11),
        vec![
            GlCommand::ActiveTexture { unit: glow::TEXTURE0 + 3 },
            GlCommand::BindTexture { target: glow::TEXTURE_2D, texture: 11 },
        ]
    );
    assert!(cache.bind_texture(3, glow::TEXTURE_2D, 11).is_empty());
    assert_eq!(cache.bind_texture(4, glow::TEXTURE_2D, 11).len(), 2);
    assert_eq!(cache.bind_texture(3, glow::TEXTURE_2D, 12).len(), 2);
}

#[test]
fn program_binding_is_issued_once() {
    let mut cache = GlCache::new();
    assert_eq!(cache.bind_program(2), vec![GlCommand::UseProgram { program: 2 }]);
    assert!(cache.bind_program(2).is_empty());
}

#[test]
fn blending_enables_once_and_disables() {
    let mut cache = GlCache::new();
    let func = BlendFunc {
        equation: BlendEquation::Add,
        source: BlendFactor::Value(BlendValue::SrcAlpha),
        dest: BlendFactor::OneMinusValue(BlendValue::SrcAlpha),
    };
    assert!(cache.set_blend(Blending::Disabled).is_empty());
    assert_eq!(
        cache.set_blend(Blending::All(func)),
        vec![
            GlCommand::Enable { cap: glow::BLEND },
            GlCommand::BlendFunc { src: glow::SRC_ALPHA, dst: glow::ONE_MINUS_SRC_ALPHA },
            GlCommand::BlendEquation { mode: glow::FUNC_ADD },
        ]
    );
    assert!(cache.set_blend(Blending::All(func)).is_empty());
    let other = BlendFunc { equation: BlendEquation::Subtract, ..func };
    assert_eq!(
        cache.set_blend(Blending::Separate { color: func, alpha: other }),
        vec![
            GlCommand::BlendFuncSeparate {
                src_rgb: glow::SRC_ALPHA,
                dst_rgb: glow::ONE_MINUS_SRC_ALPHA,
                src_alpha: glow::SRC_ALPHA,
                dst_alpha: glow::ONE_MINUS_SRC_ALPHA,
            },
            GlCommand::BlendEquationSeparate {
                mode_rgb: glow::FUNC_ADD,
                mode_alpha: glow::FUNC_SUBTRACT,
            },
        ]
    );
    assert_eq!(
        cache.set_blend(Blending::Disabled),
        vec![GlCommand::Disable { cap: glow::BLEND }]
    );
    assert!(cache.set_blend(Blending::Disabled).is_empty());
}

#[test]
fn stencil_sets_both_faces() {
    let mut cache = GlCache::new();
    let state = StencilState { front: face(1), back: face(2) };
    let cmds = cache.set_stencil(Some(state));
    assert_eq!(
        cmds,
        vec![
            GlCommand::Enable { cap: glow::STENCIL_TEST },
            GlCommand::StencilOpSeparate {
                face: glow::FRONT,
                fail: glow::KEEP,
                depth_fail: glow::ZERO,
                pass: glow::REPLACE,
            },
            GlCommand::StencilFuncSeparate {
                face: glow::FRONT,
                func: glow::EQUAL,
                reference: 3,
                mask: 0xff,
            },
            GlCommand::StencilMaskSeparate { face: glow::FRONT, mask: 1 },
            GlCommand::StencilOpSeparate {
                face: glow::BACK,
                fail: glow::KEEP,
                depth_fail: glow::ZERO,
                pass: glow::REPLACE,
            },
            GlCommand::StencilFuncSeparate {
                face: glow::BACK,
                func: glow::EQUAL,
                reference: 3,
                mask: 0xff,
            },
            GlCommand::StencilMaskSeparate { face: glow::BACK, mask: 2 },
        ]
    );
    assert!(cache.set_stencil(Some(state)).is_empty());
    // A change of settings keeps the test enabled and sends no Enable.
    let changed = StencilState { front: face(5), back: face(2) };
    assert_eq!(cache.set_stencil(Some(changed)).len(), 6);
}

#[test]
fn disabling_stencil_is_not_recorded() {
    let mut cache = GlCache::new();
    let state = StencilState { front: face(1), back: face(1) };
    assert_eq!(cache.set_stencil(Some(state)).len(), 7);
    let off = vec![GlCommand::Disable { cap: glow::STENCIL_TEST }];
    assert_eq!(cache.set_stencil(None), off);
    assert_eq!(cache.set_stencil(None), off);
    // The cache still holds the old settings, so asking for them again is silent.
    assert!(cache.set_stencil(Some(state)).is_empty());
}

#[test]
fn depth_test_is_never_recorded() {
    let mut cache = GlCache::new();
    let on = vec![
        GlCommand::Enable { cap: glow::DEPTH_TEST },
        GlCommand::DepthFunc { func: glow::LESS },
    ];
    assert_eq!(cache.set_depth_test(Some(Comparison::Less)), on);
    assert_eq!(cache.set_depth_test(Some(Comparison::Less)), on);
    assert!(cache.set_depth_test(None).is_empty());
}

#[test]
fn front_face_order_is_never_recorded() {
    let mut cache = GlCache::new();
    let cw = vec![GlCommand::FrontFace { mode: glow::CW }];
    assert_eq!(cache.set_front_face_order(FrontFaceOrder::Clockwise), cw);
    assert_eq!(cache.set_front_face_order(FrontFaceOrder::Clockwise), cw);
    assert!(cache.set_front_face_order(FrontFaceOrder::CounterClockwise).is_empty());
}

#[test]
fn cull_face_changes_are_recorded() {
    let mut cache = GlCache::new();
    assert!(cache.set_cull_face(CullFace::Nothing).is_empty());
    assert_eq!(
        cache.set_cull_face(CullFace::Back),
        vec![GlCommand::Enable { cap: glow::CULL_FACE }, GlCommand::CullFace { mode: glow::BACK }]
    );
    assert!(cache.set_cull_face(CullFace::Back).is_empty());
    assert_eq!(
        cache.set_cull_face(CullFace::Front),
        vec![GlCommand::Enable { cap: glow::CULL_FACE }, GlCommand::CullFace { mode: glow::FRONT }]
    );
    assert_eq!(
        cache.set_cull_face(CullFace::Nothing),
        vec![GlCommand::Disable { cap: glow::CULL_FACE }]
    );
}

#[test]
fn color_write_changes_are_recorded() {
    let mut cache = GlCache::new();
    assert!(cache.set_color_write((true, true, true, true)).is_empty());
    assert_eq!(
        cache.set_color_write((true, false, true, false)),
        vec![GlCommand::ColorMask { red: true, green: false, blue: true, alpha: false }]
    );
    assert!(cache.set_color_write((true, false, true, false)).is_empty());
}

/// A small stand-in for a GL context that follows the commands.
#[derive(Default)]
struct FakeGl {
    array_buffer: Option<u32>,
    element_buffer: Option<u32>,
    program: Option<u32>,
    active_unit: u32,
    bindings: std::collections::HashMap<(u32, u32), u32>,
    enabled: std::collections::HashSet<u32>,
    blend_func: (u32, u32, u32, u32),
    cull_mode: u32,
    color_mask: (bool, bool, bool, bool),
}

impl FakeGl {
    fn run(&mut self, cmds: &[GlCommand]) {
        for cmd in cmds {
            match *cmd {
                GlCommand::BindBuffer { target, buffer } => {
                    if target == glow::ARRAY_BUFFER {
                        self.array_buffer = Some(buffer);
                    } else if target == glow::ELEMENT_ARRAY_BUFFER {
                        self.element_buffer = Some(buffer);
                    }
                }
                GlCommand::ActiveTexture { unit } => self.active_unit = unit,
                GlCommand::BindTexture { target, texture } => {
                    self.bindings.insert((self.active_unit, target), texture);
                }
                GlCommand::UseProgram { program } => self.program = Some(program),
                GlCommand::Enable { cap } => {
                    self.enabled.insert(cap);
                }
                GlCommand::Disable { cap } => {
                    self.enabled.remove(&cap);
                }
                GlCommand::BlendFunc { src, dst } => self.blend_func = (src, dst, src, dst),
                GlCommand::BlendFuncSeparate { src_rgb, dst_rgb, src_alpha, dst_alpha } => {
                    self.blend_func = (src_rgb, dst_rgb, src_alpha, dst_alpha)
                }
                GlCommand::CullFace { mode } => self.cull_mode = mode,
                GlCommand::ColorMask { red, green, blue, alpha } => {
                    self.color_mask = (red, green, blue, alpha)
                }
                _ => {}
            }
        }
    }
}

#[test]
fn cache_commands_keep_gl_in_step() {
    let mut cache = GlCache::new();
    let mut gl = FakeGl { color_mask: (true, true, true, true), ..FakeGl::default() };
    let func = BlendFunc {
        equation: BlendEquation::Add,
        source: BlendFactor::One,
        dest: BlendFactor::Zero,
    };
    gl.run(&cache.bind_buffer(4));
    gl.run(&cache.bind_index_buffer(5));
    gl.run(&cache.bind_texture(0, glow::TEXTURE_2D, 9));
    gl.run(&cache.bind_texture(1, glow::TEXTURE_2D, 10));
    gl.run(&cache.bind_program(6));
    gl.run(&cache.set_blend(Blending::All(func)));
    gl.run(&cache.set_cull_face(CullFace::Front));
    gl.run(&cache.set_color_write((false, true, true, true)));
    gl.run(&cache.bind_texture(0, glow::TEXTURE_2D, 9));
    gl.run(&cache.set_blend(Blending::All(func)));

    assert_eq!(gl.array_buffer, Some(4));
    assert_eq!(gl.element_buffer, Some(5));
    assert_eq!(gl.program, Some(6));
    assert_eq!(gl.bindings.get(&(glow::TEXTURE0, glow::TEXTURE_2D)), Some(&9));
    assert_eq!(gl.bindings.get(&(glow::TEXTURE0 + 1, glow::TEXTURE_2D)), Some(&10));
    assert!(gl.enabled.contains(&glow::BLEND));
    assert_eq!(gl.blend_func, (glow::ONE, glow::ZERO, glow::ONE, glow::ZERO));
    assert!(gl.enabled.contains(&glow::CULL_FACE));
    assert_eq!(gl.cull_mode, glow::FRONT);
    assert_eq!(gl.color_mask, (false, true, true, true));

    gl.run(&cache.set_blend(Blending::Disabled));
    gl.run(&cache.set_cull_face(CullFace::Nothing));
    assert!(!gl.enabled.contains(&glow::BLEND));
    assert!(!gl.enabled.contains(&glow::CULL_FACE));
}

#[test]
fn reset_restores_fresh_state() {
    let mut cache = GlCache::new();
    cache.set_cull_face(CullFace::Back);
    cache.bind_program(3);
    let cmds = cache.reset();
    assert_eq!(
        cmds,
        vec![
            GlCommand::Disable { cap: glow::BLEND },
            GlCommand::Disable { cap: glow::STENCIL_TEST },
            GlCommand::Disable { cap: glow::CULL_FACE },
            GlCommand::ColorMask { red: true, green: true, blue: true, alpha: true },
        ]
    );
    assert_eq!(cache.bind_program(3), vec![GlCommand::UseProgram { program: 3 }]);
    assert!(cache.set_cull_face(CullFace::Nothing).is_empty());
}

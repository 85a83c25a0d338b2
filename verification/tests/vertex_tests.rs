use mimiq::cache::GlCommand;
use mimiq::vertex::{
    attribute_commands, attribute_info_of_val, gl_type_is_integer, VertexField,
    MAX_VERTEX_ATTRIBUTES,
};

#[test]
fn integer_types_are_recognised() {
    for ty in [
        glow::INT,
        glow::SHORT,
        glow::BYTE,
        glow::UNSIGNED_INT,
        glow::UNSIGNED_SHORT,
        glow::UNSIGNED_BYTE,
    ] {
        assert!(gl_type_is_integer(ty));
    }
    assert!(!gl_type_is_integer(glow::FLOAT));
    assert!(!gl_type_is_integer(glow::TEXTURE_2D));
}

#[test]
fn attributes_reset_slots_then_describe_layout() {
    let layout = [
        VertexField { name: "v_pos", gl_type: glow::FLOAT, component_count: 2, off: 0 },
        VertexField { name: "v_color", gl_type: glow::UNSIGNED_BYTE, component_count: 4, off: 8 },
    ];
    let cmds = attribute_commands(12, &layout);
    assert_eq!(cmds.len(), MAX_VERTEX_ATTRIBUTES + 4);
    for (i, cmd) in cmds.iter().take(MAX_VERTEX_ATTRIBUTES).enumerate() {
        assert_eq!(*cmd, GlCommand::DisableVertexAttribArray { index: i as u32 });
    }
    assert_eq!(cmds[16], GlCommand::EnableVertexAttribArray { index: 0 });
    assert_eq!(
        cmds[17],
        GlCommand::VertexAttribPointerF32 {
            index: 0,
            size: 2,
            data_type: glow::FLOAT,
            normalized: false,
            stride: 12,
            offset: 0,
        }
    );
    assert_eq!(cmds[18], GlCommand::EnableVertexAttribArray { index: 1 });
    assert_eq!(
        cmds[19],
        GlCommand::VertexAttribPointerI32 {
            index: 1,
            size: 4,
            data_type: glow::UNSIGNED_BYTE,
            stride: 12,
            offset: 8,
        }
    );
}

#[test]
fn empty_layout_only_resets_slots() {
    let cmds = attribute_commands(0, &[]);
    assert_eq!(cmds.len(), MAX_VERTEX_ATTRIBUTES);
}

#[test]
fn attribute_info_of_values() {
    assert_eq!(attribute_info_of_val(glam::Vec2::new(1.0, 2.0)), (glow::FLOAT, 2));
    assert_eq!(attribute_info_of_val(glam::Vec3::new(1.0, 2.0, 3.0)), (glow::FLOAT, 3));
    assert_eq!(attribute_info_of_val(glam::Vec4::new(1.0, 2.0, 3.0, 4.0)), (glow::FLOAT, 4));
    assert_eq!(attribute_info_of_val(glam::U8Vec4::new(1, 2, 3, 4)), (glow::UNSIGNED_BYTE, 4));
}

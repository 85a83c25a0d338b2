use mimiq::uniform::{
    gl_type_of_image_uniform_val, uniform_fields_size, uniform_type_of_val, uniform_uploads,
    ImageUniformVal, UniformField, UniformType, UniformUpload,
};

#[test]
fn uniform_sizes() {
    assert_eq!(UniformType::F32.size(), 4);
    assert_eq!(UniformType::F32x2.size(), 8);
    assert_eq!(UniformType::F32x3.size(), 12);
    assert_eq!(UniformType::F32x4.size(), 16);
    assert_eq!(UniformType::F32x4x4.size(), 64);
    assert_eq!(UniformType::I32.size(), 4);
    assert_eq!(UniformType::I32x2.size(), 8);
    assert_eq!(UniformType::I32x3.size(), 12);
    assert_eq!(UniformType::I32x4.size(), 16);
}

fn layout() -> [UniformField; 2] {
    [
        UniformField { name: "mvp", ty: UniformType::F32x4x4, off: 0, sz: 64 },
        UniformField { name: "tint", ty: UniformType::F32x4, off: 64, sz: 16 },
    ]
}

#[test]
fn uploads_follow_the_layout() {
    let uploads = uniform_uploads(80, &layout(), 2);
    assert_eq!(
        uploads,
        vec![
            UniformUpload { index: 0, ty: UniformType::F32x4x4, start: 0, end: 64 },
            UniformUpload { index: 1, ty: UniformType::F32x4, start: 64, end: 80 },
        ]
    );
}

#[test]
fn uploads_stop_at_the_last_location() {
    let uploads = uniform_uploads(64, &layout(), 1);
    assert_eq!(uploads, vec![UniformUpload { index: 0, ty: UniformType::F32x4x4, start: 0, end: 64 }]);
    assert!(uniform_uploads(0, &layout(), 0).is_empty());
}

#[test]
fn fields_size_adds_field_sizes() {
    assert_eq!(uniform_fields_size(&layout()), 80);
    assert_eq!(uniform_fields_size(&[]), 0);
}

struct Cube;

impl ImageUniformVal for Cube {
    const GL_TYPE: u32 = glow::TEXTURE_CUBE_MAP;

    fn bind(&self, _slot: u32) {}
}

#[test]
fn image_uniform_type_is_the_declared_target() {
    assert_eq!(gl_type_of_image_uniform_val::<Cube>(), glow::TEXTURE_CUBE_MAP);
}

#[test]
fn uniform_types_of_values() {
    assert_eq!(uniform_type_of_val(7i32), UniformType::I32);
    assert_eq!(uniform_type_of_val([1i32, 2, 3]), UniformType::I32);
    assert_eq!(uniform_type_of_val(glam::IVec2::new(1, 2)), UniformType::I32x2);
    assert_eq!(uniform_type_of_val(glam::IVec3::new(1, 2, 3)), UniformType::I32x3);
    assert_eq!(uniform_type_of_val(glam::IVec4::new(1, 2, 3, 4)), UniformType::I32x4);
    assert_eq!(uniform_type_of_val(glam::Vec2::new(1.0, 2.0)), UniformType::F32x2);
    assert_eq!(uniform_type_of_val(glam::Vec3::new(1.0, 2.0, 3.0)), UniformType::F32x3);
    assert_eq!(uniform_type_of_val(glam::Vec4::new(1.0, 2.0, 3.0, 4.0)), UniformType::F32x4);
    assert_eq!(uniform_type_of_val(glam::Mat4::IDENTITY), UniformType::F32x4x4);
    assert_eq!(uniform_type_of_val([glam::Mat4::IDENTITY; 2]), UniformType::F32x4x4);
}

use mimiq::buffer::{gl_usage, BufferUsage, IndexBufferElement, VertexIndex};

#[test]
fn usage_hints_match_glow() {
    assert_eq!(gl_usage(BufferUsage::Immutable), glow::STATIC_DRAW);
    assert_eq!(gl_usage(BufferUsage::Dynamic), glow::DYNAMIC_DRAW);
    assert_eq!(gl_usage(BufferUsage::Stream), glow::STREAM_DRAW);
    assert_eq!(BufferUsage::Immutable.to_gl_usage(), glow::STATIC_DRAW);
    assert_eq!(BufferUsage::Dynamic.to_gl_usage(), glow::DYNAMIC_DRAW);
    assert_eq!(BufferUsage::Stream.to_gl_usage(), glow::STREAM_DRAW);
}

#[test]
fn index_types_declare_gl_types() {
    assert_eq!(<u8 as VertexIndex>::GL_TYPE, glow::UNSIGNED_BYTE);
    assert_eq!(<u16 as VertexIndex>::GL_TYPE, glow::UNSIGNED_SHORT);
    assert_eq!(<u32 as VertexIndex>::GL_TYPE, glow::UNSIGNED_SHORT);
    assert_eq!(<u8 as IndexBufferElement>::GL_TYPE, glow::UNSIGNED_BYTE);
    assert_eq!(<u16 as IndexBufferElement>::GL_TYPE, glow::UNSIGNED_SHORT);
    assert_eq!(<u32 as IndexBufferElement>::GL_TYPE, glow::UNSIGNED_SHORT);
}

#[test]
fn offset_by_adds_the_cut_offset() {
    assert_eq!(3u8.offset_by(4), 7);
    assert_eq!(3u8.offset_by(256 + 4), 7);
    assert_eq!(1000u16.offset_by(24), 1024);
    assert_eq!(1000u16.offset_by(65536 + 24), 1024);
    assert_eq!(7u32.offset_by(5), 12);
}

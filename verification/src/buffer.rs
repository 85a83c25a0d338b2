//! Buffer usage hints and vertex index types.

use vstd::prelude::*;
use crate::gl;

verus! {

/// How often the contents of a buffer are expected to change.
#[derive(Clone, Copy, Debug, PartialEq, Eq, Structural)]
pub enum BufferUsage {
    Immutable,
    Dynamic,
    Stream,
}

/// The GL usage hint of `usage`.
pub open spec fn usage_gl(usage: BufferUsage) -> u32 {
    match usage {
        BufferUsage::Immutable => gl::STATIC_DRAW,
        BufferUsage::Dynamic => gl::DYNAMIC_DRAW,
        BufferUsage::Stream => gl::STREAM_DRAW,
    }
}

impl BufferUsage {
    /// The GL usage hint this usage is allocated with.
    pub fn to_gl_usage(self) -> (r: u32)
        ensures
            r == usage_gl(self),
    {
        gl_usage(self)
    }
}

/// The GL usage hint of `usage`.
pub fn gl_usage(usage: BufferUsage) -> (r: u32)
    ensures
        r == usage_gl(usage),
{
    match usage {
        BufferUsage::Immutable => gl::STATIC_DRAW,
        BufferUsage::Dynamic => gl::DYNAMIC_DRAW,
        BufferUsage::Stream => gl::STREAM_DRAW,
    }
}

/// An integer type that can index vertices in an index buffer.
pub trait VertexIndex: Sized {
    /// The GL type of the indices.
    const GL_TYPE: u32;

    /// `self + off` (with `off` cut to the width of the index type) does not overflow.
    spec fn offset_fits(self, off: usize) -> bool;

    /// The index `off` places after `self`, with `off` cut to the width of the index type.
    spec fn spec_offset_by(self, off: usize) -> Self;

    /// The index `off` places after `self`, with `off` cut to the width of the index type.
    fn offset_by(self, off: usize) -> (r: Self)
        requires
            self.offset_fits(off),
        ensures
            r == self.spec_offset_by(off),
    ;
}

impl VertexIndex for u8 {
    const GL_TYPE: u32 = gl::UNSIGNED_BYTE;

    open spec fn offset_fits(self, off: usize) -> bool {
        self + (off as u8) <= u8::MAX
    }

    open spec fn spec_offset_by(self, off: usize) -> u8 {
        (self + (off as u8)) as u8
    }

    fn offset_by(self, off: usize) -> (r: u8) {
        self + off as u8
    }
}

impl VertexIndex for u16 {
    const GL_TYPE: u32 = gl::UNSIGNED_SHORT;

    open spec fn offset_fits(self, off: usize) -> bool {
        self + (off as u16) <= u16::MAX
    }

    open spec fn spec_offset_by(self, off: usize) -> u16 {
        (self + (off as u16)) as u16
    }

    fn offset_by(self, off: usize) -> (r: u16) {
        self + off as u16
    }
}

impl VertexIndex for u32 {
    /// 32-bit indices are declared to GL as `UNSIGNED_SHORT`.
    const GL_TYPE: u32 = gl::UNSIGNED_SHORT;

    open spec fn offset_fits(self, off: usize) -> bool {
        self + (off as u32) <= u32::MAX
    }

    open spec fn spec_offset_by(self, off: usize) -> u32 {
        (self + (off as u32)) as u32
    }

    fn offset_by(self, off: usize) -> (r: u32) {
        self + off as u32
    }
}

/// An integer type that can be stored in an index buffer.
pub trait IndexBufferElement: Copy {
    /// The GL type of the elements.
    const GL_TYPE: u32;
}

impl IndexBufferElement for u8 {
    const GL_TYPE: u32 = gl::UNSIGNED_BYTE;
}

impl IndexBufferElement for u16 {
    const GL_TYPE: u32 = gl::UNSIGNED_SHORT;
}

impl IndexBufferElement for u32 {
    /// 32-bit elements are declared to GL as `UNSIGNED_SHORT`.
    const GL_TYPE: u32 = gl::UNSIGNED_SHORT;
}


/// The GL types the index types are declared with: bytes as
/// `UNSIGNED_BYTE`, and both 16-bit and 32-bit indices as `UNSIGNED_SHORT`.
pub proof fn lemma_index_gl_types()
    ensures
        <u8 as VertexIndex>::GL_TYPE == gl::UNSIGNED_BYTE,
        <u16 as VertexIndex>::GL_TYPE == gl::UNSIGNED_SHORT,
        <u32 as VertexIndex>::GL_TYPE == gl::UNSIGNED_SHORT,
        <u8 as IndexBufferElement>::GL_TYPE == gl::UNSIGNED_BYTE,
        <u16 as IndexBufferElement>::GL_TYPE == gl::UNSIGNED_SHORT,
        <u32 as IndexBufferElement>::GL_TYPE == gl::UNSIGNED_SHORT,
{
}

} // verus!

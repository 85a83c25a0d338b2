//! Vertex layouts and the GL calls that describe them to a program.

use vstd::prelude::*;
use crate::cache::GlCommand;
use crate::gl;

verus! {

/// Number of vertex attribute slots that are reset before a layout is applied.
pub const MAX_VERTEX_ATTRIBUTES: usize = 16;

/// The largest vertex stride (in bytes) that is accepted.
pub const MAX_VERTEX_STRIDE: usize = 255;

/// One attribute of a vertex type.
#[derive(Debug, Clone, Copy)]
pub struct VertexField {
    pub name: &'static str,
    pub gl_type: u32,
    pub component_count: usize,
    pub off: usize,
}

/// A vertex type with a known attribute layout.
pub trait Vertex {
    const LAYOUT: &'static [VertexField];
}

/// A type that can be a field of a vertex: its GL component type and count.
pub trait VertexFieldTy {
    const GL_TYPE: u32;
    const COMPONENT_COUNT: usize;
}

impl VertexFieldTy for glam::Vec2 {
    const GL_TYPE: u32 = gl::FLOAT;
    const COMPONENT_COUNT: usize = 2;
}

impl VertexFieldTy for glam::Vec3 {
    const GL_TYPE: u32 = gl::FLOAT;
    const COMPONENT_COUNT: usize = 3;
}

impl VertexFieldTy for glam::Vec4 {
    const GL_TYPE: u32 = gl::FLOAT;
    const COMPONENT_COUNT: usize = 4;
}

impl VertexFieldTy for glam::U8Vec4 {
    const GL_TYPE: u32 = gl::UNSIGNED_BYTE;
    const COMPONENT_COUNT: usize = 4;
}

/// The GL component type and component count of each vertex field type:
/// the float vectors have `FLOAT` components, one per dimension, and the
/// byte vector four `UNSIGNED_BYTE` components.
pub proof fn lemma_vertex_field_types()
    ensures
        <glam::Vec2 as VertexFieldTy>::GL_TYPE == gl::FLOAT,
        <glam::Vec2 as VertexFieldTy>::COMPONENT_COUNT == 2,
        <glam::Vec3 as VertexFieldTy>::GL_TYPE == gl::FLOAT,
        <glam::Vec3 as VertexFieldTy>::COMPONENT_COUNT == 3,
        <glam::Vec4 as VertexFieldTy>::GL_TYPE == gl::FLOAT,
        <glam::Vec4 as VertexFieldTy>::COMPONENT_COUNT == 4,
        <glam::U8Vec4 as VertexFieldTy>::GL_TYPE == gl::UNSIGNED_BYTE,
        <glam::U8Vec4 as VertexFieldTy>::COMPONENT_COUNT == 4,
{
}

/// The GL component type and component count of a vertex field value.
pub fn attribute_info_of_val<T: VertexFieldTy>(_x: T) -> (r: (u32, usize))
    ensures
        r == (T::GL_TYPE, T::COMPONENT_COUNT),
{
    (T::GL_TYPE, T::COMPONENT_COUNT)
}

/// A type carrying a count.
pub trait Test {
    const N: usize;
}

/// How a vertex attribute is described to GL.
#[derive(Clone, Copy, Debug, PartialEq, Default)]
pub struct VertexAttributeInternal {
    pub attr_loc: u32,
    pub size: i32,
    pub type_: u32,
    pub gl_pass_as_float: bool,
}

/// `gl_type` is one of the GL integer types.
pub open spec fn is_integer_type(gl_type: u32) -> bool {
    ||| gl_type == gl::INT
    ||| gl_type == gl::SHORT
    ||| gl_type == gl::BYTE
    ||| gl_type == gl::UNSIGNED_INT
    ||| gl_type == gl::UNSIGNED_SHORT
    ||| gl_type == gl::UNSIGNED_BYTE
}

/// Whether attributes of `gl_type` are passed to the program as integers.
pub fn gl_type_is_integer(gl_type: u32) -> (r: bool)
    ensures
        r == is_integer_type(gl_type),
{
    gl_type == gl::INT || gl_type == gl::SHORT || gl_type == gl::BYTE || gl_type
        == gl::UNSIGNED_INT || gl_type == gl::UNSIGNED_SHORT || gl_type == gl::UNSIGNED_BYTE
}

/// The pointer command that describes attribute `index` of a vertex of `stride` bytes.
pub open spec fn attribute_pointer(index: int, attr: VertexField, stride: usize) -> GlCommand {
    if is_integer_type(attr.gl_type) {
        GlCommand::VertexAttribPointerI32 {
            index: index as u32,
            size: attr.component_count as i32,
            data_type: attr.gl_type,
            stride: stride as i32,
            offset: attr.off as i32,
        }
    } else {
        GlCommand::VertexAttribPointerF32 {
            index: index as u32,
            size: attr.component_count as i32,
            data_type: attr.gl_type,
            normalized: false,
            stride: stride as i32,
            offset: attr.off as i32,
        }
    }
}

/// The commands that apply `layout` for vertices of `stride` bytes: every
/// attribute slot is disabled, then each attribute of the layout is enabled
/// in its slot and described.
pub open spec fn attribute_commands_spec(stride: usize, layout: Seq<VertexField>) -> Seq<GlCommand> {
    Seq::new(
        (MAX_VERTEX_ATTRIBUTES + 2 * layout.len()) as nat,
        |k: int|
            if k < MAX_VERTEX_ATTRIBUTES {
                GlCommand::DisableVertexAttribArray { index: k as u32 }
            } else if (k - MAX_VERTEX_ATTRIBUTES) % 2 == 0 {
                GlCommand::EnableVertexAttribArray {
                    index: ((k - MAX_VERTEX_ATTRIBUTES) / 2) as u32,
                }
            } else {
                attribute_pointer(
                    (k - MAX_VERTEX_ATTRIBUTES) / 2,
                    layout[(k - MAX_VERTEX_ATTRIBUTES) / 2],
                    stride,
                )
            },
    )
}

/// The commands that apply the vertex `layout` for vertices of `stride` bytes.
pub fn attribute_commands(stride: usize, layout: &[VertexField]) -> (r: Vec<GlCommand>)
    requires
        stride <= MAX_VERTEX_STRIDE,
        layout@.len() <= MAX_VERTEX_ATTRIBUTES,
    ensures
        r@ == attribute_commands_spec(stride, layout@),
{
    let ghost expected = attribute_commands_spec(stride, layout@);
    let mut cmds: Vec<GlCommand> = Vec::new();
    let mut id: usize = 0;
    while id < MAX_VERTEX_ATTRIBUTES
        invariant
            id <= MAX_VERTEX_ATTRIBUTES,
            layout@.len() <= MAX_VERTEX_ATTRIBUTES,
            expected == attribute_commands_spec(stride, layout@),
            cmds@ =~= expected.take(id as int),
        decreases MAX_VERTEX_ATTRIBUTES - id,
    {
        cmds.push(GlCommand::DisableVertexAttribArray { index: id as u32 });
        id = id + 1;
    }
    let mut id: usize = 0;
    while id < layout.len()
        invariant
            id <= layout@.len(),
            layout@.len() <= MAX_VERTEX_ATTRIBUTES,
            stride <= MAX_VERTEX_STRIDE,
            expected == attribute_commands_spec(stride, layout@),
            cmds@ =~= expected.take(MAX_VERTEX_ATTRIBUTES + 2 * id),
        decreases layout@.len() - id,
    {
        let attr = layout[id];
        cmds.push(GlCommand::EnableVertexAttribArray { index: id as u32 });
        if gl_type_is_integer(attr.gl_type) {
            cmds.push(
                GlCommand::VertexAttribPointerI32 {
                    index: id as u32,
                    size: attr.component_count as i32,
                    data_type: attr.gl_type,
                    stride: stride as i32,
                    offset: attr.off as i32,
                },
            );
        } else {
            cmds.push(
                GlCommand::VertexAttribPointerF32 {
                    index: id as u32,
                    size: attr.component_count as i32,
                    data_type: attr.gl_type,
                    normalized: false,
                    stride: stride as i32,
                    offset: attr.off as i32,
                },
            );
        }
        proof {
            let k0 = MAX_VERTEX_ATTRIBUTES + 2 * id;
            assert((k0 - MAX_VERTEX_ATTRIBUTES) / 2 == id);
            assert((k0 + 1 - MAX_VERTEX_ATTRIBUTES) / 2 == id);
            assert((k0 - MAX_VERTEX_ATTRIBUTES) % 2 == 0);
            assert((k0 + 1 - MAX_VERTEX_ATTRIBUTES) % 2 == 1);
        }
        id = id + 1;
    }
    cmds
}


/// `c` describes attribute `i`, `attr`, of vertices of `stride` bytes: it is
/// the pointer command of slot `i` with the attribute's component count and
/// GL type, the vertex size as stride and the attribute's byte offset as
/// offset; integer types (`BYTE`, `SHORT`, `INT` and their unsigned kinds)
/// are passed as integers, all others as unnormalised floats.
pub open spec fn describes_attribute(c: GlCommand, i: int, attr: VertexField, stride: usize) -> bool {
    let integer = attr.gl_type == gl::BYTE || attr.gl_type == gl::UNSIGNED_BYTE || attr.gl_type
        == gl::SHORT || attr.gl_type == gl::UNSIGNED_SHORT || attr.gl_type == gl::INT
        || attr.gl_type == gl::UNSIGNED_INT;
    match c {
        GlCommand::VertexAttribPointerI32 { index, size, data_type, stride: s, offset } => {
            &&& integer
            &&& index == i as u32
            &&& size == attr.component_count as i32
            &&& data_type == attr.gl_type
            &&& s == stride as i32
            &&& offset == attr.off as i32
        },
        GlCommand::VertexAttribPointerF32 { index, size, data_type, normalized, stride: s, offset } => {
            &&& !integer
            &&& index == i as u32
            &&& size == attr.component_count as i32
            &&& data_type == attr.gl_type
            &&& !normalized
            &&& s == stride as i32
            &&& offset == attr.off as i32
        },
        _ => false,
    }
}

/// What applying a vertex layout does, for every layout: the commands first
/// disable each of the attribute slots, then for each attribute `i` enable
/// slot `i` and describe the attribute there.
pub proof fn lemma_attribute_commands_describe_layout(stride: usize, layout: Seq<VertexField>)
    ensures
        attribute_commands_spec(stride, layout).len() == MAX_VERTEX_ATTRIBUTES + 2 * layout.len(),
        forall|k: int|
            0 <= k < MAX_VERTEX_ATTRIBUTES ==> (#[trigger] attribute_commands_spec(stride, layout)[k]
                matches GlCommand::DisableVertexAttribArray { index } && index == k as u32),
        forall|i: int|
            0 <= i < layout.len() ==> (attribute_commands_spec(stride, layout)[MAX_VERTEX_ATTRIBUTES
                + 2 * i] matches GlCommand::EnableVertexAttribArray { index } && index == i as u32)
                && describes_attribute(
                attribute_commands_spec(stride, layout)[MAX_VERTEX_ATTRIBUTES + 2 * i + 1],
                i,
                #[trigger] layout[i],
                stride,
            ),
{
    let cmds = attribute_commands_spec(stride, layout);
    assert forall|i: int| 0 <= i < layout.len() implies (cmds[MAX_VERTEX_ATTRIBUTES + 2 * i]
        matches GlCommand::EnableVertexAttribArray { index } && index == i as u32)
        && describes_attribute(cmds[MAX_VERTEX_ATTRIBUTES + 2 * i + 1], i, #[trigger] layout[i], stride) by {
        assert((2 * i) % 2 == 0 && (2 * i) / 2 == i);
        assert((2 * i + 1) % 2 == 1 && (2 * i + 1) / 2 == i);
    }
}
} // verus!

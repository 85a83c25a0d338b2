//! Uniform blocks, image uniforms, and how uniform data is split into uploads.

use vstd::prelude::*;

verus! {

/// The GLSL type of a uniform.
#[derive(Clone, Copy, Debug, PartialEq, Eq, Structural)]
pub enum UniformType {
    F32,
    F32x2,
    F32x3,
    F32x4,
    F32x4x4,
    I32,
    I32x2,
    I32x3,
    I32x4,
}

/// The size in bytes of one value of uniform type `ty`.
pub open spec fn uniform_size(ty: UniformType) -> nat {
    match ty {
        UniformType::F32 => 4,
        UniformType::F32x2 => 8,
        UniformType::F32x3 => 12,
        UniformType::F32x4 => 16,
        UniformType::F32x4x4 => 64,
        UniformType::I32 => 4,
        UniformType::I32x2 => 8,
        UniformType::I32x3 => 12,
        UniformType::I32x4 => 16,
    }
}

impl UniformType {
    /// The size in bytes of one value of this type.
    pub fn size(self) -> (r: usize)
        ensures
            r == uniform_size(self),
    {
        match self {
            UniformType::F32 => 4,
            UniformType::F32x2 => 8,
            UniformType::F32x3 => 12,
            UniformType::F32x4 => 16,
            UniformType::F32x4x4 => 64,
            UniformType::I32 => 4,
            UniformType::I32x2 => 8,
            UniformType::I32x3 => 12,
            UniformType::I32x4 => 16,
        }
    }
}

/// A value that can be uploaded as a uniform, with its GLSL type.
pub trait UniformVal {
    const UNIFORM_TYPE: UniformType;
}

impl UniformVal for i32 {
    const UNIFORM_TYPE: UniformType = UniformType::I32;
}

impl<T: UniformVal, const N: usize> UniformVal for [T; N] {
    const UNIFORM_TYPE: UniformType = T::UNIFORM_TYPE;
}

impl UniformVal for glam::Vec2 {
    const UNIFORM_TYPE: UniformType = UniformType::F32x2;
}

impl UniformVal for glam::Vec3 {
    const UNIFORM_TYPE: UniformType = UniformType::F32x3;
}

impl UniformVal for glam::Vec4 {
    const UNIFORM_TYPE: UniformType = UniformType::F32x4;
}

impl UniformVal for glam::Mat4 {
    const UNIFORM_TYPE: UniformType = UniformType::F32x4x4;
}

impl UniformVal for glam::IVec2 {
    const UNIFORM_TYPE: UniformType = UniformType::I32x2;
}

impl UniformVal for glam::IVec3 {
    const UNIFORM_TYPE: UniformType = UniformType::I32x3;
}

impl UniformVal for glam::IVec4 {
    const UNIFORM_TYPE: UniformType = UniformType::I32x4;
}

/// The uniform type of each kind of value: `i32` and the integer vectors
/// map to the `I32` types, the float vectors and the 4x4 matrix to the
/// `F32` types, and an array takes the type of its elements.
pub proof fn lemma_uniform_types()
    ensures
        <i32 as UniformVal>::UNIFORM_TYPE == UniformType::I32,
        <glam::IVec2 as UniformVal>::UNIFORM_TYPE == UniformType::I32x2,
        <glam::IVec3 as UniformVal>::UNIFORM_TYPE == UniformType::I32x3,
        <glam::IVec4 as UniformVal>::UNIFORM_TYPE == UniformType::I32x4,
        <glam::Vec2 as UniformVal>::UNIFORM_TYPE == UniformType::F32x2,
        <glam::Vec3 as UniformVal>::UNIFORM_TYPE == UniformType::F32x3,
        <glam::Vec4 as UniformVal>::UNIFORM_TYPE == UniformType::F32x4,
        <glam::Mat4 as UniformVal>::UNIFORM_TYPE == UniformType::F32x4x4,
{
}

/// An array of uniform values has the uniform type of its elements.
pub proof fn lemma_array_uniform_type<T: UniformVal, const N: usize>()
    ensures
        <[T; N] as UniformVal>::UNIFORM_TYPE == T::UNIFORM_TYPE,
{
}

/// The uniform type of a value.
pub fn uniform_type_of_val<T: UniformVal>(_x: T) -> (r: UniformType)
    ensures
        r == T::UNIFORM_TYPE,
{
    T::UNIFORM_TYPE
}

/// One field of a uniform block: its name, type, and where its bytes lie.
#[derive(Debug, Clone, Copy)]
pub struct UniformField {
    pub name: &'static str,
    pub ty: UniformType,
    pub off: usize,
    pub sz: usize,
}

/// A block of uniforms with a known layout.
pub trait UniformBlock {
    const FIELDS: &'static [UniformField];
}

/// One image uniform: its name and the GL type of its sampler target.
#[derive(Debug, Clone, Copy)]
pub struct ImageUniformField {
    pub name: &'static str,
    pub gl_type: u32,
}

/// A value that can be bound to an image uniform.
pub trait ImageUniformVal {
    const GL_TYPE: u32;

    fn bind(&self, slot: u32);
}

/// The GL sampler target of image uniforms of type `T`.
pub fn gl_type_of_image_uniform_val<T: ImageUniformVal>() -> (r: u32)
    ensures
        r == T::GL_TYPE,
{
    T::GL_TYPE
}

/// One uniform upload: the field's position in the layout, its type, and the
/// byte range `start..end` of the uniform data it is read from.
#[derive(Debug, Clone, Copy, PartialEq, Eq, Structural)]
pub struct UniformUpload {
    pub index: usize,
    pub ty: UniformType,
    pub start: usize,
    pub end: usize,
}

/// Every field that has a location reads inside the uniform data.
pub open spec fn uploads_in_bounds(data_len: usize, layout: Seq<UniformField>, n_locations: usize) -> bool {
    forall|i: int|
        0 <= i < layout.len() && i < n_locations ==> #[trigger] layout[i].off + layout[i].sz
            <= data_len
}

/// The uploads for `layout` when `n_locations` uniform locations were found:
/// one per field that has a location, in order.
pub open spec fn uniform_uploads_spec(layout: Seq<UniformField>, n_locations: usize) -> Seq<UniformUpload> {
    Seq::new(
        if layout.len() < n_locations {
            layout.len()
        } else {
            n_locations as nat
        },
        |i: int|
            UniformUpload {
                index: i as usize,
                ty: layout[i].ty,
                start: layout[i].off,
                end: (layout[i].off + layout[i].sz) as usize,
            },
    )
}

/// Splits `data_len` bytes of uniform data into the uploads of `layout`; the
/// fields are paired with the `n_locations` uniform locations in order.
pub fn uniform_uploads(data_len: usize, layout: &[UniformField], n_locations: usize) -> (r: Vec<UniformUpload>)
    requires
        uploads_in_bounds(data_len, layout@, n_locations),
    ensures
        r@ == uniform_uploads_spec(layout@, n_locations),
        forall|i: int| 0 <= i < r@.len() ==> #[trigger] r@[i].start <= r@[i].end && r@[i].end <= data_len,
{
    let mut uploads: Vec<UniformUpload> = Vec::new();
    let mut i: usize = 0;
    while i < layout.len() && i < n_locations
        invariant
            i <= layout@.len(),
            i <= n_locations,
            uploads_in_bounds(data_len, layout@, n_locations),
            uploads@ =~= uniform_uploads_spec(layout@, n_locations).take(i as int),
        decreases layout@.len() - i,
    {
        let field = layout[i];
        assert(layout@[i as int].off + layout@[i as int].sz <= data_len);
        uploads.push(UniformUpload { index: i, ty: field.ty, start: field.off, end: field.off + field.sz });
        i = i + 1;
    }
    uploads
}

/// The number of bytes the fields of a uniform layout cover together.
pub open spec fn fields_size(layout: Seq<UniformField>) -> nat
    decreases layout.len(),
{
    if layout.len() == 0 {
        0
    } else {
        fields_size(layout.drop_last()) + layout.last().sz as nat
    }
}

/// Adds up the sizes of the fields of a uniform layout.
pub fn uniform_fields_size(layout: &[UniformField]) -> (r: usize)
    requires
        fields_size(layout@) <= usize::MAX,
    ensures
        r == fields_size(layout@),
{
    let mut res: usize = 0;
    let mut idx: usize = 0;
    while idx < layout.len()
        invariant
            idx <= layout@.len(),
            fields_size(layout@) <= usize::MAX,
            res == fields_size(layout@.take(idx as int)),
        decreases layout@.len() - idx,
    {
        proof {
            assert(layout@.take(idx + 1).drop_last() =~= layout@.take(idx as int));
            lemma_fields_size_prefix(layout@, idx + 1);
        }
        res = res + layout[idx].sz;
        idx = idx + 1;
    }
    proof {
        assert(layout@.take(layout@.len() as int) =~= layout@);
    }
    res
}

/// A prefix of a layout covers no more bytes than the whole layout.
proof fn lemma_fields_size_prefix(layout: Seq<UniformField>, n: int)
    requires
        0 <= n <= layout.len(),
    ensures
        fields_size(layout.take(n)) <= fields_size(layout),
    decreases layout.len(),
{
    if n < layout.len() {
        assert(layout.drop_last().take(n) =~= layout.take(n));
        lemma_fields_size_prefix(layout.drop_last(), n);
    } else {
        assert(layout.take(n) =~= layout);
    }
}


/// What splitting uniform data does, for every layout: there is one upload
/// per field that has a location, in field order, and upload `i` reads
/// exactly the bytes of field `i`, from its offset to its offset plus its
/// size, whatever its type (an array field is read whole), with the field's
/// type. (A field whose end does not fit in a `usize` cannot be uploaded.)
pub proof fn lemma_uploads_cover_fields(layout: Seq<UniformField>, n_locations: usize)
    ensures
        uniform_uploads_spec(layout, n_locations).len() == (if layout.len() < n_locations {
            layout.len()
        } else {
            n_locations as nat
        }),
        forall|i: int|
            0 <= i < uniform_uploads_spec(layout, n_locations).len() ==> {
                let u = #[trigger] uniform_uploads_spec(layout, n_locations)[i];
                &&& u.index == i
                &&& u.ty == layout[i].ty
                &&& u.start == layout[i].off
                &&& layout[i].off + layout[i].sz <= usize::MAX ==> u.end == layout[i].off
                    + layout[i].sz && u.end - u.start == layout[i].sz
            },
{
}

} // verus!

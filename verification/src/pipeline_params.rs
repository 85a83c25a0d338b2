//! Fixed-function pipeline settings (blending, culling, depth and stencil
//! tests) and the GL enumerants they stand for.

use vstd::prelude::*;
use vstd::std_specs::convert::FromSpecImpl;
use crate::gl;

verus! {

/// How the output of a draw call is blended with the framebuffer.
#[derive(Debug, Copy, Clone, PartialEq, Eq, Structural)]
pub enum Blending {
    /// No blending.
    Disabled,
    All(BlendFunc),
    Separate { color: BlendFunc, alpha: BlendFunc },
}

/// One blend function: the equation and the factors applied to its two operands.
#[derive(Debug, Copy, Clone, PartialEq, Eq, Structural)]
pub struct BlendFunc {
    pub equation: BlendEquation,
    pub source: BlendFactor,
    pub dest: BlendFactor,
}

/// Specifies how incoming RGBA values (source) and the RGBA in framebuffer (destination)
/// are combined.
#[derive(Debug, Default, PartialEq, Eq, Clone, Copy, Structural)]
pub enum BlendEquation {
    /// Adds source and destination. Source and destination are multiplied
    /// by blending parameters before addition.
    #[default]
    Add,
    /// Subtracts destination from source. Source and destination are
    /// multiplied by blending parameters before subtraction.
    Subtract,
    /// Subtracts source from destination. Source and destination are
    /// multiplied by blending parameters before subtraction.
    ReverseSubtract,
}

/// Blend factors.
#[derive(Debug, PartialEq, Eq, Clone, Copy, Structural)]
pub enum BlendFactor {
    Zero,
    One,
    Value(BlendValue),
    OneMinusValue(BlendValue),
    SourceAlphaSaturate,
}

/// Blend values.
#[derive(Debug, PartialEq, Eq, Clone, Copy, Structural)]
pub enum BlendValue {
    SrcColor,
    SrcAlpha,
    DestColor,
    DestAlpha,
}

/// Which faces are culled.
#[derive(Debug, PartialEq, Eq, Clone, Copy, Structural)]
pub enum CullFace {
    Nothing,
    Front,
    Back,
}

/// The winding order of front faces.
#[derive(Debug, PartialEq, Eq, Clone, Copy, Structural)]
pub enum FrontFaceOrder {
    Clockwise,
    CounterClockwise,
}

/// A pixel-wise comparison function.
#[derive(Debug, PartialEq, Eq, Clone, Copy, Structural)]
pub enum Comparison {
    Never,
    Less,
    LessOrEqual,
    Greater,
    GreaterOrEqual,
    Equal,
    NotEqual,
}

/// The primitives a draw call assembles.
#[derive(Debug, PartialEq, Eq, Clone, Copy, Structural)]
pub enum PrimitiveType {
    Triangles,
    Lines,
    Points,
}

/// Write masks of the red, green, blue and alpha channels.
pub type ColorMask = (bool, bool, bool, bool);

/// Stencil test settings of the front and the back faces.
#[derive(Debug, Copy, Clone, PartialEq, Eq, Structural)]
pub struct StencilState {
    pub front: StencilFaceState,
    pub back: StencilFaceState,
}

/// Stencil test settings of one face.
#[derive(Debug, Copy, Clone, PartialEq, Eq, Structural)]
pub struct StencilFaceState {
    /// Operation to use when stencil test fails
    pub fail_op: StencilOp,
    /// Operation to use when stencil test passes, but depth test fails
    pub depth_fail_op: StencilOp,
    /// Operation to use when both stencil and depth test pass,
    /// or when stencil pass and no depth or depth disabled
    pub pass_op: StencilOp,
    /// Used for stencil testing with test_ref and test_mask: if (test_ref & test_mask) *test_func* (*stencil* && test_mask)
    /// Default is Always, which means "always pass"
    pub test_func: CompareFunc,
    /// Default value: 0
    pub test_ref: i32,
    /// Default value: all 1s
    pub test_mask: u32,
    /// Specifies a bit mask to enable or disable writing of individual bits in the stencil planes
    /// Default value: all 1s
    pub write_mask: u32,
}

/// Operations performed on current stencil value when comparison test passes or fails.
#[derive(Debug, PartialEq, Eq, Clone, Copy, Structural)]
pub enum StencilOp {
    /// Default value
    Keep,
    Zero,
    Replace,
    IncrementClamp,
    DecrementClamp,
    Invert,
    IncrementWrap,
    DecrementWrap,
}

/// Depth and stencil compare function
#[derive(Debug, Copy, Clone, PartialEq, Eq, Structural)]
pub enum CompareFunc {
    /// Default value
    Always,
    Never,
    Less,
    Equal,
    LessOrEqual,
    Greater,
    NotEqual,
    GreaterOrEqual,
}

/// The GL value of a blend factor.
pub open spec fn blend_factor_gl(factor: BlendFactor) -> u32 {
    match factor {
        BlendFactor::Zero => gl::ZERO,
        BlendFactor::One => gl::ONE,
        BlendFactor::Value(BlendValue::SrcColor) => gl::SRC_COLOR,
        BlendFactor::Value(BlendValue::SrcAlpha) => gl::SRC_ALPHA,
        BlendFactor::Value(BlendValue::DestColor) => gl::DST_COLOR,
        BlendFactor::Value(BlendValue::DestAlpha) => gl::DST_ALPHA,
        BlendFactor::OneMinusValue(BlendValue::SrcColor) => gl::ONE_MINUS_SRC_COLOR,
        BlendFactor::OneMinusValue(BlendValue::SrcAlpha) => gl::ONE_MINUS_SRC_ALPHA,
        BlendFactor::OneMinusValue(BlendValue::DestColor) => gl::ONE_MINUS_DST_COLOR,
        BlendFactor::OneMinusValue(BlendValue::DestAlpha) => gl::ONE_MINUS_DST_ALPHA,
        BlendFactor::SourceAlphaSaturate => gl::SRC_ALPHA_SATURATE,
    }
}

impl From<BlendFactor> for u32 {
    fn from(factor: BlendFactor) -> (r: u32) {
        match factor {
            BlendFactor::Zero => gl::ZERO,
            BlendFactor::One => gl::ONE,
            BlendFactor::Value(BlendValue::SrcColor) => gl::SRC_COLOR,
            BlendFactor::Value(BlendValue::SrcAlpha) => gl::SRC_ALPHA,
            BlendFactor::Value(BlendValue::DestColor) => gl::DST_COLOR,
            BlendFactor::Value(BlendValue::DestAlpha) => gl::DST_ALPHA,
            BlendFactor::OneMinusValue(BlendValue::SrcColor) => gl::ONE_MINUS_SRC_COLOR,
            BlendFactor::OneMinusValue(BlendValue::SrcAlpha) => gl::ONE_MINUS_SRC_ALPHA,
            BlendFactor::OneMinusValue(BlendValue::DestColor) => gl::ONE_MINUS_DST_COLOR,
            BlendFactor::OneMinusValue(BlendValue::DestAlpha) => gl::ONE_MINUS_DST_ALPHA,
            BlendFactor::SourceAlphaSaturate => gl::SRC_ALPHA_SATURATE,
        }
    }
}

impl FromSpecImpl<BlendFactor> for u32 {
    open spec fn obeys_from_spec() -> bool {
        true
    }

    open spec fn from_spec(v: BlendFactor) -> u32 {
        blend_factor_gl(v)
    }
}

/// The GL value of a blend equation.
pub open spec fn blend_equation_gl(eq: BlendEquation) -> u32 {
    match eq {
        BlendEquation::Add => gl::FUNC_ADD,
        BlendEquation::Subtract => gl::FUNC_SUBTRACT,
        BlendEquation::ReverseSubtract => gl::FUNC_REVERSE_SUBTRACT,
    }
}

impl From<BlendEquation> for u32 {
    fn from(eq: BlendEquation) -> (r: u32) {
        match eq {
            BlendEquation::Add => gl::FUNC_ADD,
            BlendEquation::Subtract => gl::FUNC_SUBTRACT,
            BlendEquation::ReverseSubtract => gl::FUNC_REVERSE_SUBTRACT,
        }
    }
}

impl FromSpecImpl<BlendEquation> for u32 {
    open spec fn obeys_from_spec() -> bool {
        true
    }

    open spec fn from_spec(v: BlendEquation) -> u32 {
        blend_equation_gl(v)
    }
}

/// The GL value of a depth comparison.
pub open spec fn comparison_gl(cmp: Comparison) -> u32 {
    match cmp {
        Comparison::Never => gl::NEVER,
        Comparison::Less => gl::LESS,
        Comparison::LessOrEqual => gl::LEQUAL,
        Comparison::Greater => gl::GREATER,
        Comparison::GreaterOrEqual => gl::GEQUAL,
        Comparison::Equal => gl::EQUAL,
        Comparison::NotEqual => gl::NOTEQUAL,
    }
}

impl From<Comparison> for u32 {
    fn from(cmp: Comparison) -> (r: u32) {
        match cmp {
            Comparison::Never => gl::NEVER,
            Comparison::Less => gl::LESS,
            Comparison::LessOrEqual => gl::LEQUAL,
            Comparison::Greater => gl::GREATER,
            Comparison::GreaterOrEqual => gl::GEQUAL,
            Comparison::Equal => gl::EQUAL,
            Comparison::NotEqual => gl::NOTEQUAL,
        }
    }
}

impl FromSpecImpl<Comparison> for u32 {
    open spec fn obeys_from_spec() -> bool {
        true
    }

    open spec fn from_spec(v: Comparison) -> u32 {
        comparison_gl(v)
    }
}

/// The GL value of a stencil operation.
pub open spec fn stencil_op_gl(op: StencilOp) -> u32 {
    match op {
        StencilOp::Keep => gl::KEEP,
        StencilOp::Zero => gl::ZERO,
        StencilOp::Replace => gl::REPLACE,
        StencilOp::IncrementClamp => gl::INCR,
        StencilOp::DecrementClamp => gl::DECR,
        StencilOp::Invert => gl::INVERT,
        StencilOp::IncrementWrap => gl::INCR_WRAP,
        StencilOp::DecrementWrap => gl::DECR_WRAP,
    }
}

impl From<StencilOp> for u32 {
    fn from(op: StencilOp) -> (r: u32) {
        match op {
            StencilOp::Keep => gl::KEEP,
            StencilOp::Zero => gl::ZERO,
            StencilOp::Replace => gl::REPLACE,
            StencilOp::IncrementClamp => gl::INCR,
            StencilOp::DecrementClamp => gl::DECR,
            StencilOp::Invert => gl::INVERT,
            StencilOp::IncrementWrap => gl::INCR_WRAP,
            StencilOp::DecrementWrap => gl::DECR_WRAP,
        }
    }
}

impl FromSpecImpl<StencilOp> for u32 {
    open spec fn obeys_from_spec() -> bool {
        true
    }

    open spec fn from_spec(v: StencilOp) -> u32 {
        stencil_op_gl(v)
    }
}

/// The GL value of a stencil compare function.
pub open spec fn compare_func_gl(cf: CompareFunc) -> u32 {
    match cf {
        CompareFunc::Always => gl::ALWAYS,
        CompareFunc::Never => gl::NEVER,
        CompareFunc::Less => gl::LESS,
        CompareFunc::Equal => gl::EQUAL,
        CompareFunc::LessOrEqual => gl::LEQUAL,
        CompareFunc::Greater => gl::GREATER,
        CompareFunc::NotEqual => gl::NOTEQUAL,
        CompareFunc::GreaterOrEqual => gl::GEQUAL,
    }
}

impl From<CompareFunc> for u32 {
    fn from(cf: CompareFunc) -> (r: u32) {
        match cf {
            CompareFunc::Always => gl::ALWAYS,
            CompareFunc::Never => gl::NEVER,
            CompareFunc::Less => gl::LESS,
            CompareFunc::Equal => gl::EQUAL,
            CompareFunc::LessOrEqual => gl::LEQUAL,
            CompareFunc::Greater => gl::GREATER,
            CompareFunc::NotEqual => gl::NOTEQUAL,
            CompareFunc::GreaterOrEqual => gl::GEQUAL,
        }
    }
}

impl FromSpecImpl<CompareFunc> for u32 {
    open spec fn obeys_from_spec() -> bool {
        true
    }

    open spec fn from_spec(v: CompareFunc) -> u32 {
        compare_func_gl(v)
    }
}

} // verus!

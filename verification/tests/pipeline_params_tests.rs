use mimiq::gl;
use mimiq::pipeline_params::{
    BlendEquation, BlendFactor, BlendValue, CompareFunc, Comparison, StencilOp,
};

#[test]
fn blend_factors_convert_to_glow_values() {
    assert_eq!(u32::from(BlendFactor::Zero), glow::ZERO);
    assert_eq!(u32::from(BlendFactor::One), glow::ONE);
    assert_eq!(u32::from(BlendFactor::Value(BlendValue::SrcColor)), glow::SRC_COLOR);
    assert_eq!(u32::from(BlendFactor::Value(BlendValue::SrcAlpha)), glow::SRC_ALPHA);
    assert_eq!(u32::from(BlendFactor::Value(BlendValue::DestColor)), glow::DST_COLOR);
    assert_eq!(u32::from(BlendFactor::Value(BlendValue::DestAlpha)), glow::DST_ALPHA);
    assert_eq!(
        u32::from(BlendFactor::OneMinusValue(BlendValue::SrcColor)),
        glow::ONE_MINUS_SRC_COLOR
    );
    assert_eq!(
        u32::from(BlendFactor::OneMinusValue(BlendValue::SrcAlpha)),
        glow::ONE_MINUS_SRC_ALPHA
    );
    assert_eq!(
        u32::from(BlendFactor::OneMinusValue(BlendValue::DestColor)),
        glow::ONE_MINUS_DST_COLOR
    );
    assert_eq!(
        u32::from(BlendFactor::OneMinusValue(BlendValue::DestAlpha)),
        glow::ONE_MINUS_DST_ALPHA
    );
    assert_eq!(u32::from(BlendFactor::SourceAlphaSaturate), glow::SRC_ALPHA_SATURATE);
}

#[test]
fn blend_equations_convert_to_glow_values() {
    assert_eq!(u32::from(BlendEquation::Add), glow::FUNC_ADD);
    assert_eq!(u32::from(BlendEquation::Subtract), glow::FUNC_SUBTRACT);
    assert_eq!(u32::from(BlendEquation::ReverseSubtract), glow::FUNC_REVERSE_SUBTRACT);
    assert_eq!(BlendEquation::default(), BlendEquation::Add);
}

#[test]
fn comparisons_convert_to_glow_values() {
    assert_eq!(u32::from(Comparison::Never), glow::NEVER);
    assert_eq!(u32::from(Comparison::Less), glow::LESS);
    assert_eq!(u32::from(Comparison::LessOrEqual), glow::LEQUAL);
    assert_eq!(u32::from(Comparison::Greater), glow::GREATER);
    assert_eq!(u32::from(Comparison::GreaterOrEqual), glow::GEQUAL);
    assert_eq!(u32::from(Comparison::Equal), glow::EQUAL);
    assert_eq!(u32::from(Comparison::NotEqual), glow::NOTEQUAL);
}

#[test]
fn stencil_ops_convert_to_glow_values() {
    assert_eq!(u32::from(StencilOp::Keep), glow::KEEP);
    assert_eq!(u32::from(StencilOp::Zero), glow::ZERO);
    assert_eq!(u32::from(StencilOp::Replace), glow::REPLACE);
    assert_eq!(u32::from(StencilOp::IncrementClamp), glow::INCR);
    assert_eq!(u32::from(StencilOp::DecrementClamp), glow::DECR);
    assert_eq!(u32::from(StencilOp::Invert), glow::INVERT);
    assert_eq!(u32::from(StencilOp::IncrementWrap), glow::INCR_WRAP);
    assert_eq!(u32::from(StencilOp::DecrementWrap), glow::DECR_WRAP);
}

#[test]
fn compare_funcs_convert_to_glow_values() {
    assert_eq!(u32::from(CompareFunc::Always), glow::ALWAYS);
    assert_eq!(u32::from(CompareFunc::Never), glow::NEVER);
    assert_eq!(u32::from(CompareFunc::Less), glow::LESS);
    assert_eq!(u32::from(CompareFunc::Equal), glow::EQUAL);
    assert_eq!(u32::from(CompareFunc::LessOrEqual), glow::LEQUAL);
    assert_eq!(u32::from(CompareFunc::Greater), glow::GREATER);
    assert_eq!(u32::from(CompareFunc::NotEqual), glow::NOTEQUAL);
    assert_eq!(u32::from(CompareFunc::GreaterOrEqual), glow::GEQUAL);
}

#[test]
fn gl_constants_match_glow() {
    assert_eq!(gl::ARRAY_BUFFER, glow::ARRAY_BUFFER);
    assert_eq!(gl::ELEMENT_ARRAY_BUFFER, glow::ELEMENT_ARRAY_BUFFER);
    assert_eq!(gl::TEXTURE_2D, glow::TEXTURE_2D);
    assert_eq!(gl::TEXTURE0, glow::TEXTURE0);
    assert_eq!(gl::BLEND, glow::BLEND);
    assert_eq!(gl::STENCIL_TEST, glow::STENCIL_TEST);
    assert_eq!(gl::DEPTH_TEST, glow::DEPTH_TEST);
    assert_eq!(gl::CULL_FACE, glow::CULL_FACE);
    assert_eq!(gl::FRONT, glow::FRONT);
    assert_eq!(gl::BACK, glow::BACK);
    assert_eq!(gl::CW, glow::CW);
    assert_eq!(gl::CCW, glow::CCW);
    assert_eq!(gl::BYTE, glow::BYTE);
    assert_eq!(gl::SHORT, glow::SHORT);
    assert_eq!(gl::INT, glow::INT);
    assert_eq!(gl::UNSIGNED_INT, glow::UNSIGNED_INT);
    assert_eq!(gl::UNSIGNED_SHORT, glow::UNSIGNED_SHORT);
    assert_eq!(gl::UNSIGNED_BYTE, glow::UNSIGNED_BYTE);
    assert_eq!(gl::FLOAT, glow::FLOAT);
    assert_eq!(gl::TRIANGLES, glow::TRIANGLES);
    assert_eq!(gl::LINES, glow::LINES);
    assert_eq!(gl::POINTS, glow::POINTS);
    assert_eq!(gl::COLOR_BUFFER_BIT, glow::COLOR_BUFFER_BIT);
    assert_eq!(gl::DEPTH_BUFFER_BIT, glow::DEPTH_BUFFER_BIT);
    assert_eq!(gl::STENCIL_BUFFER_BIT, glow::STENCIL_BUFFER_BIT);
    assert_eq!(gl::COLOR_ATTACHMENT0, glow::COLOR_ATTACHMENT0);
    assert_eq!(gl::DEPTH_ATTACHMENT, glow::DEPTH_ATTACHMENT);
    assert_eq!(gl::NO_ERROR, glow::NO_ERROR);
    assert_eq!(gl::STATIC_DRAW, glow::STATIC_DRAW);
    assert_eq!(gl::DYNAMIC_DRAW, glow::DYNAMIC_DRAW);
    assert_eq!(gl::STREAM_DRAW, glow::STREAM_DRAW);
    assert_eq!(gl::DEBUG_TYPE_ERROR, glow::DEBUG_TYPE_ERROR);
    assert_eq!(gl::DEBUG_SEVERITY_HIGH, glow::DEBUG_SEVERITY_HIGH);
    assert_eq!(gl::DEBUG_SEVERITY_NOTIFICATION, glow::DEBUG_SEVERITY_NOTIFICATION);
}

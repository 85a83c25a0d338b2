use mimiq::cache::{GlCache, GlCommand};
use mimiq::pipeline::{
    apply_pipeline_state, check_attribute_locations, element_offset, primitive_mode,
    AttributeLocationError,
};
use mimiq::pipeline_params::{Blending, Comparison, CullFace, FrontFaceOrder, PrimitiveType};

#[test]
fn primitive_modes_match_glow() {
    assert_eq!(primitive_mode(PrimitiveType::Triangles), glow::TRIANGLES);
    assert_eq!(primitive_mode(PrimitiveType::Lines), glow::LINES);
    assert_eq!(primitive_mode(PrimitiveType::Points), glow::POINTS);
}

#[test]
fn element_offsets_are_in_bytes() {
    assert_eq!(element_offset(2, 0), 0);
    assert_eq!(element_offset(2, 6), 12);
    assert_eq!(element_offset(4, 10), 40);
}

#[test]
fn applying_a_pipeline_twice_costs_only_unrecorded_state() {
    let mut cache = GlCache::new();
    let first = apply_pipeline_state(
        &mut cache,
        1,
        2,
        3,
        None,
        FrontFaceOrder::CounterClockwise,
        CullFace::Nothing,
        Blending::Disabled,
        None,
        (true, true, true, true),
    );
    assert_eq!(
        first,
        vec![
            GlCommand::UseProgram { program: 1 },
            GlCommand::BindBuffer { target: glow::ARRAY_BUFFER, buffer: 2 },
            GlCommand::BindBuffer { target: glow::ELEMENT_ARRAY_BUFFER, buffer: 3 },
        ]
    );
    let again = apply_pipeline_state(
        &mut cache,
        1,
        2,
        3,
        None,
        FrontFaceOrder::CounterClockwise,
        CullFace::Nothing,
        Blending::Disabled,
        None,
        (true, true, true, true),
    );
    assert!(again.is_empty());
    let with_depth = apply_pipeline_state(
        &mut cache,
        1,
        2,
        3,
        Some(Comparison::LessOrEqual),
        FrontFaceOrder::Clockwise,
        CullFace::Back,
        Blending::Disabled,
        None,
        (true, true, true, true),
    );
    assert_eq!(
        with_depth,
        vec![
            GlCommand::Enable { cap: glow::DEPTH_TEST },
            GlCommand::DepthFunc { func: glow::LEQUAL },
            GlCommand::FrontFace { mode: glow::CW },
            GlCommand::Enable { cap: glow::CULL_FACE },
            GlCommand::CullFace { mode: glow::BACK },
        ]
    );
}

#[test]
fn attribute_locations_must_follow_the_layout() {
    assert_eq!(check_attribute_locations(&[]), Ok(()));
    assert_eq!(check_attribute_locations(&[Some(0), Some(1), Some(2)]), Ok(()));
    assert_eq!(
        check_attribute_locations(&[Some(0), None, Some(5)]),
        Err(AttributeLocationError::Missing { index: 1 })
    );
    assert_eq!(
        check_attribute_locations(&[Some(0), Some(2), None]),
        Err(AttributeLocationError::Misplaced { index: 1, found: 2 })
    );
    assert_eq!(
        check_attribute_locations(&[Some(1), Some(0)]),
        Err(AttributeLocationError::Misplaced { index: 0, found: 1 })
    );
}

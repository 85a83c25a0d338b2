use mimiq::color::color_hex_channels;
use mimiq::debug::{
    debug_message_level, debug_source_name, debug_type_name, debug_type_warns, DebugLogLevel,
};
use mimiq::error::check_gl_status;
use mimiq::fs::{classify_http_status, HttpStatusClass};
use mimiq::render_pass::{clear_mask, color_attachment_points, render_pass_plan, FramebufferPlan};

#[test]
fn clear_mask_covers_requested_buffers() {
    assert_eq!(clear_mask(false, false, false), 0);
    assert_eq!(clear_mask(true, false, false), glow::COLOR_BUFFER_BIT);
    assert_eq!(clear_mask(true, true, false), glow::COLOR_BUFFER_BIT | glow::DEPTH_BUFFER_BIT);
    assert_eq!(
        clear_mask(true, true, true),
        glow::COLOR_BUFFER_BIT | glow::DEPTH_BUFFER_BIT | glow::STENCIL_BUFFER_BIT
    );
    assert_eq!(clear_mask(false, false, true), glow::STENCIL_BUFFER_BIT);
}

#[test]
fn attachment_points_count_up() {
    assert!(color_attachment_points(0).is_empty());
    assert_eq!(
        color_attachment_points(3),
        vec![glow::COLOR_ATTACHMENT0, glow::COLOR_ATTACHMENT0 + 1, glow::COLOR_ATTACHMENT0 + 2]
    );
}

#[test]
fn gl_status_check() {
    assert!(check_gl_status(glow::NO_ERROR, "a.rs", 3).is_ok());
    let err = check_gl_status(glow::INVALID_ENUM, "b.rs", 7).unwrap_err();
    assert_eq!(err.file, "b.rs");
    assert_eq!(err.line, 7);
    assert_eq!(err.gl_err, glow::INVALID_ENUM);
}

#[test]
fn debug_messages_are_classified() {
    assert_eq!(debug_source_name(glow::DEBUG_SOURCE_API), "API");
    assert_eq!(debug_source_name(glow::DEBUG_SOURCE_APPLICATION), "app");
    assert_eq!(debug_source_name(glow::DEBUG_SOURCE_SHADER_COMPILER), "shader compiler");
    assert_eq!(debug_source_name(glow::DEBUG_SOURCE_THIRD_PARTY), "third party");
    assert_eq!(debug_source_name(glow::DEBUG_SOURCE_WINDOW_SYSTEM), "window system");
    assert_eq!(debug_source_name(glow::DEBUG_SOURCE_OTHER), "other");
    assert_eq!(debug_source_name(1), "N/A");
    assert_eq!(debug_type_name(glow::DEBUG_TYPE_ERROR), "error");
    assert_eq!(debug_type_name(glow::DEBUG_TYPE_DEPRECATED_BEHAVIOR), "depreacated");
    assert_eq!(debug_type_name(glow::DEBUG_TYPE_POP_GROUP), "pop group");
    assert_eq!(debug_type_name(glow::DEBUG_TYPE_PUSH_GROUP), "N/A");
    assert_eq!(
        debug_message_level(glow::DEBUG_TYPE_ERROR, glow::DEBUG_SEVERITY_LOW),
        DebugLogLevel::Error
    );
    assert_eq!(
        debug_message_level(glow::DEBUG_TYPE_PERFORMANCE, glow::DEBUG_SEVERITY_HIGH),
        DebugLogLevel::Warn
    );
    assert_eq!(
        debug_message_level(glow::DEBUG_TYPE_OTHER, glow::DEBUG_SEVERITY_HIGH),
        DebugLogLevel::Error
    );
    assert_eq!(
        debug_message_level(glow::DEBUG_TYPE_OTHER, glow::DEBUG_SEVERITY_MEDIUM),
        DebugLogLevel::Warn
    );
    assert_eq!(
        debug_message_level(glow::DEBUG_TYPE_MARKER, glow::DEBUG_SEVERITY_NOTIFICATION),
        DebugLogLevel::Info
    );
    assert_eq!(debug_message_level(glow::DEBUG_TYPE_MARKER, 0), DebugLogLevel::Debug);
}

#[test]
fn http_statuses_are_classified() {
    assert_eq!(classify_http_status(200), HttpStatusClass::Served);
    assert_eq!(classify_http_status(404), HttpStatusClass::NotFound);
    assert_eq!(classify_http_status(410), HttpStatusClass::NotFound);
    assert_eq!(classify_http_status(400), HttpStatusClass::InvalidInput);
    assert_eq!(classify_http_status(414), HttpStatusClass::InvalidInput);
    assert_eq!(classify_http_status(426), HttpStatusClass::InvalidInput);
    assert_eq!(classify_http_status(403), HttpStatusClass::PermissionDenied);
    assert_eq!(classify_http_status(511), HttpStatusClass::PermissionDenied);
    assert_eq!(classify_http_status(503), HttpStatusClass::NetworkDown);
    assert_eq!(classify_http_status(599), HttpStatusClass::NetworkDown);
    assert_eq!(classify_http_status(201), HttpStatusClass::Unexpected);
    assert_eq!(classify_http_status(418), HttpStatusClass::Unexpected);
    assert_eq!(classify_http_status(600), HttpStatusClass::Unexpected);
}

#[test]
fn hex_colors_split_into_channels() {
    assert_eq!(color_hex_channels(0x00ff8000), (0xff, 0x80, 0x00, 255));
    assert_eq!(color_hex_channels(0xab123456), (0x12, 0x34, 0x56, 255));
    assert_eq!(color_hex_channels(0), (0, 0, 0, 255));
}

#[test]
fn warning_types_are_recognised() {
    assert!(debug_type_warns(glow::DEBUG_TYPE_PERFORMANCE));
    assert!(debug_type_warns(glow::DEBUG_TYPE_PORTABILITY));
    assert!(debug_type_warns(glow::DEBUG_TYPE_UNDEFINED_BEHAVIOR));
    assert!(!debug_type_warns(glow::DEBUG_TYPE_ERROR));
    assert!(!debug_type_warns(glow::DEBUG_TYPE_OTHER));
}

#[test]
fn render_pass_plans() {
    assert_eq!(render_pass_plan(0, false), None);
    assert_eq!(
        render_pass_plan(0, true),
        Some(FramebufferPlan {
            color_attachments: vec![],
            depth_attachment: Some(glow::DEPTH_ATTACHMENT),
            set_draw_buffers: false,
        })
    );
    assert_eq!(
        render_pass_plan(1, false),
        Some(FramebufferPlan {
            color_attachments: vec![glow::COLOR_ATTACHMENT0],
            depth_attachment: None,
            set_draw_buffers: false,
        })
    );
    assert_eq!(
        render_pass_plan(2, true),
        Some(FramebufferPlan {
            color_attachments: vec![glow::COLOR_ATTACHMENT0, glow::COLOR_ATTACHMENT1],
            depth_attachment: Some(glow::DEPTH_ATTACHMENT),
            set_draw_buffers: true,
        })
    );
}

//! Classification of GL debug messages.

use vstd::prelude::*;
use crate::gl;

verus! {

/// The log level a GL debug message is reported at.
#[derive(Debug, Clone, Copy, PartialEq, Eq, Structural)]
pub enum DebugLogLevel {
    Error,
    Warn,
    Info,
    Debug,
}

/// The short name of a debug message source.
pub open spec fn debug_source_name_spec(source: u32) -> Seq<char> {
    if source == gl::DEBUG_SOURCE_API {
        "API"@
    } else if source == gl::DEBUG_SOURCE_APPLICATION {
        "app"@
    } else if source == gl::DEBUG_SOURCE_SHADER_COMPILER {
        "shader compiler"@
    } else if source == gl::DEBUG_SOURCE_THIRD_PARTY {
        "third party"@
    } else if source == gl::DEBUG_SOURCE_WINDOW_SYSTEM {
        "window system"@
    } else if source == gl::DEBUG_SOURCE_OTHER {
        "other"@
    } else {
        "N/A"@
    }
}

/// The short name of the source of a GL debug message.
pub fn debug_source_name(source: u32) -> (r: &'static str)
    ensures
        r@ == debug_source_name_spec(source),
{
    if source == gl::DEBUG_SOURCE_API {
        "API"
    } else if source == gl::DEBUG_SOURCE_APPLICATION {
        "app"
    } else if source == gl::DEBUG_SOURCE_SHADER_COMPILER {
        "shader compiler"
    } else if source == gl::DEBUG_SOURCE_THIRD_PARTY {
        "third party"
    } else if source == gl::DEBUG_SOURCE_WINDOW_SYSTEM {
        "window system"
    } else if source == gl::DEBUG_SOURCE_OTHER {
        "other"
    } else {
        "N/A"
    }
}

/// The short name of a debug message type.
pub open spec fn debug_type_name_spec(ty: u32) -> Seq<char> {
    if ty == gl::DEBUG_TYPE_DEPRECATED_BEHAVIOR {
        "depreacated"@
    } else if ty == gl::DEBUG_TYPE_ERROR {
        "error"@
    } else if ty == gl::DEBUG_TYPE_MARKER {
        "marker"@
    } else if ty == gl::DEBUG_TYPE_OTHER {
        "other"@
    } else if ty == gl::DEBUG_TYPE_PERFORMANCE {
        "performance"@
    } else if ty == gl::DEBUG_TYPE_POP_GROUP {
        "pop group"@
    } else if ty == gl::DEBUG_TYPE_PORTABILITY {
        "portability"@
    } else if ty == gl::DEBUG_TYPE_UNDEFINED_BEHAVIOR {
        "undefined behavior"@
    } else {
        "N/A"@
    }
}

/// The short name of the type of a GL debug message.
pub fn debug_type_name(ty: u32) -> (r: &'static str)
    ensures
        r@ == debug_type_name_spec(ty),
{
    if ty == gl::DEBUG_TYPE_DEPRECATED_BEHAVIOR {
        "depreacated"
    } else if ty == gl::DEBUG_TYPE_ERROR {
        "error"
    } else if ty == gl::DEBUG_TYPE_MARKER {
        "marker"
    } else if ty == gl::DEBUG_TYPE_OTHER {
        "other"
    } else if ty == gl::DEBUG_TYPE_PERFORMANCE {
        "performance"
    } else if ty == gl::DEBUG_TYPE_POP_GROUP {
        "pop group"
    } else if ty == gl::DEBUG_TYPE_PORTABILITY {
        "portability"
    } else if ty == gl::DEBUG_TYPE_UNDEFINED_BEHAVIOR {
        "undefined behavior"
    } else {
        "N/A"
    }
}

/// Messages of type `ty` are warnings whatever their severity.
pub open spec fn is_warning_type(ty: u32) -> bool {
    ty == gl::DEBUG_TYPE_PERFORMANCE || ty == gl::DEBUG_TYPE_PORTABILITY || ty
        == gl::DEBUG_TYPE_UNDEFINED_BEHAVIOR
}

/// Whether debug messages of type `ty` are warnings because of their type
/// (performance, portability and undefined-behavior messages); such
/// warnings are logged with the type's number rather than its name.
pub fn debug_type_warns(ty: u32) -> (r: bool)
    ensures
        r == is_warning_type(ty),
{
    ty == gl::DEBUG_TYPE_PERFORMANCE || ty == gl::DEBUG_TYPE_PORTABILITY || ty
        == gl::DEBUG_TYPE_UNDEFINED_BEHAVIOR
}

/// The level a debug message of type `ty` and `severity` is logged at.
pub open spec fn debug_message_level_spec(ty: u32, severity: u32) -> DebugLogLevel {
    if ty == gl::DEBUG_TYPE_ERROR {
        DebugLogLevel::Error
    } else if is_warning_type(ty) {
        DebugLogLevel::Warn
    } else if severity == gl::DEBUG_SEVERITY_HIGH {
        DebugLogLevel::Error
    } else if severity == gl::DEBUG_SEVERITY_MEDIUM {
        DebugLogLevel::Warn
    } else if severity == gl::DEBUG_SEVERITY_LOW || severity == gl::DEBUG_SEVERITY_NOTIFICATION {
        DebugLogLevel::Info
    } else {
        DebugLogLevel::Debug
    }
}

/// The level a GL debug message is logged at: errors first, then the
/// warning-worthy types, then by severity.
pub fn debug_message_level(ty: u32, severity: u32) -> (r: DebugLogLevel)
    ensures
        r == debug_message_level_spec(ty, severity),
{
    if ty == gl::DEBUG_TYPE_ERROR {
        DebugLogLevel::Error
    } else if ty == gl::DEBUG_TYPE_PERFORMANCE || ty == gl::DEBUG_TYPE_PORTABILITY || ty
        == gl::DEBUG_TYPE_UNDEFINED_BEHAVIOR {
        DebugLogLevel::Warn
    } else if severity == gl::DEBUG_SEVERITY_HIGH {
        DebugLogLevel::Error
    } else if severity == gl::DEBUG_SEVERITY_MEDIUM {
        DebugLogLevel::Warn
    } else if severity == gl::DEBUG_SEVERITY_LOW || severity == gl::DEBUG_SEVERITY_NOTIFICATION {
        DebugLogLevel::Info
    } else {
        DebugLogLevel::Debug
    }
}

} // verus!

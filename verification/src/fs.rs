//! File loading: how the answer of a static file server is judged.

use vstd::prelude::*;

verus! {

/// What an HTTP status means for a file request.
#[derive(Debug, Clone, Copy, PartialEq, Eq, Structural)]
pub enum HttpStatusClass {
    /// The file was served.
    Served,
    NotFound,
    InvalidInput,
    PermissionDenied,
    NetworkDown,
    /// Any other status.
    Unexpected,
}

/// The class of HTTP status `status`. Only `200` counts as served: assets are
/// expected on a plain static server.
pub open spec fn http_status_class_spec(status: u16) -> HttpStatusClass {
    if status == 200 {
        HttpStatusClass::Served
    } else if status == 404 || status == 410 {
        HttpStatusClass::NotFound
    } else if status == 400 || status == 405 || status == 406 || (411 <= status <= 417) || (421
        <= status <= 426) || status == 428 || status == 431 {
        HttpStatusClass::InvalidInput
    } else if status == 401 || status == 402 || status == 403 || status == 407 || status == 451
        || status == 511 {
        HttpStatusClass::PermissionDenied
    } else if (500 <= status <= 510) || (512 <= status <= 599) {
        HttpStatusClass::NetworkDown
    } else {
        HttpStatusClass::Unexpected
    }
}

/// Classifies the HTTP status of a file request.
pub fn classify_http_status(status: u16) -> (r: HttpStatusClass)
    ensures
        r == http_status_class_spec(status),
{
    match status {
        200 => HttpStatusClass::Served,
        404 | 410 => HttpStatusClass::NotFound,
        400 | 405 | 406 | 411..=417 | 421..=426 | 428 | 431 => HttpStatusClass::InvalidInput,
        401 | 402 | 403 | 407 | 451 | 511 => HttpStatusClass::PermissionDenied,
        500..=510 | 512..=599 => HttpStatusClass::NetworkDown,
        _ => HttpStatusClass::Unexpected,
    }
}

} // verus!

//! Errors reported by the GL error check.

use vstd::prelude::*;
use crate::gl;

verus! {

/// A GL error found after a call, with the place of the check.
#[derive(Debug)]
pub struct GlCheckError {
    pub file: &'static str,
    pub line: u32,
    pub gl_err: u32,
}

/// Turns the GL error code read at `file:line` into the check's outcome:
/// no error is success, any other code is an error naming the place.
pub fn check_gl_status(gl_err: u32, file: &'static str, line: u32) -> (r: Result<(), GlCheckError>)
    ensures
        gl_err == gl::NO_ERROR <==> r is Ok,
        r matches Err(e) ==> e.file == file && e.line == line && e.gl_err == gl_err,
{
    if gl_err == gl::NO_ERROR {
        Ok(())
    } else {
        Err(GlCheckError { file, line, gl_err })
    }
}

} // verus!

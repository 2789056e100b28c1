//! What the library knows of the graphics driver: the tags of the stage
//! types, the status of a compile or link request, and the log that goes
//! with a failure.
//!
//! A compile or a link is asked of the driver in the same way. The caller
//! makes the request and asks for its status; [`status_passed`] tells whether
//! that status means success. Only after a failure is the log fetched: the
//! caller asks for its length, which [`info_log_len`] turns into the number
//! of bytes of text, and reads that text. Either way the outcome is a
//! [`DriverReply`], which the functions that make a stage or link a program
//! take.

use gl::types::{GLenum, GLint};
use vstd::prelude::*;

verus! {

/// The tag of a vertex stage.
pub open spec fn vertex_shader_tag() -> GLenum {
    0x8B31
}

/// The tag of a fragment stage.
pub open spec fn fragment_shader_tag() -> GLenum {
    0x8B30
}

/// The tag of a geometry stage.
pub open spec fn geometry_shader_tag() -> GLenum {
    0x8DD9
}

/// The status with which the driver reports that a request succeeded.
pub open spec fn success_status() -> GLint {
    1
}

/// `gl::VERTEX_SHADER`. Trusted: the binding holds the registry's value for
/// `GL_VERTEX_SHADER`, 0x8B31.
#[verifier::external_body]
pub(crate) fn gl_vertex_shader() -> (tag: GLenum)
    ensures
        tag == vertex_shader_tag(),
{
    gl::VERTEX_SHADER
}

/// `gl::FRAGMENT_SHADER`. Trusted: the binding holds the registry's value for
/// `GL_FRAGMENT_SHADER`, 0x8B30.
#[verifier::external_body]
pub(crate) fn gl_fragment_shader() -> (tag: GLenum)
    ensures
        tag == fragment_shader_tag(),
{
    gl::FRAGMENT_SHADER
}

/// `gl::GEOMETRY_SHADER`. Trusted: the binding holds the registry's value for
/// `GL_GEOMETRY_SHADER`, 0x8DD9.
#[verifier::external_body]
pub(crate) fn gl_geometry_shader() -> (tag: GLenum)
    ensures
        tag == geometry_shader_tag(),
{
    gl::GEOMETRY_SHADER
}

/// `gl::TRUE`, widened to the type of a status. Trusted: the binding holds
/// the registry's value for `GL_TRUE`, 1.
#[verifier::external_body]
pub(crate) fn gl_true() -> (status: GLint)
    ensures
        status == success_status(),
{
    gl::TRUE as GLint
}

/// What the driver answered to a compile or link request.
#[derive(Debug)]
pub enum DriverReply {
    /// The request succeeded.
    Passed,
    /// The request failed; the text is the driver's diagnostic log.
    Failed(String),
}

/// Whether a status the driver reported means success. On any other status
/// the request failed, and the caller fetches the driver's log.
pub fn status_passed(status: GLint) -> (passed: bool)
    ensures
        passed == (status == success_status()),
{
    status == gl_true()
}

/// The number of bytes of log text, given the length the driver reports for
/// the log. The reported length counts the terminating NUL; a driver without
/// a log reports zero.
pub fn info_log_len(reported: GLint) -> (len: usize)
    ensures
        len == if reported > 0 {
            reported - 1
        } else {
            0
        },
{
    if reported > 0 {
        (reported - 1) as usize
    } else {
        0
    }
}

} // verus!

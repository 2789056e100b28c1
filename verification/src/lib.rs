//! Shader and program lifecycle, and the angular state of a first-person
//! camera, for a small OpenGL renderer.
//!
//! Nothing here talks to the graphics driver or the file system. The caller
//! carries out each driver request and hands the driver's answer back; the
//! functions of this crate decide what follows from it.
//!
//! - [`shader`]: which stage type a file holds, judged by its name, and what
//!   a compile request came to.
//! - [`program`]: a program that is building or linked, the stages it owns,
//!   and what a link request came to.
//! - [`camera`]: yaw and pitch under pointer motion, with the pitch clamp.
//! - [`driver`]: the driver's stage type tags, status and log conventions.
//! - [`error`]: the errors of all of these.

use gl::types::GLuint;
use vstd::prelude::*;

pub mod camera;
pub mod driver;
pub mod error;
pub mod program;
pub mod shader;

verus! {

/// Something that stands for a driver-side object has the id by which the
/// driver knows it.
pub trait GLId {
    /// The id of the driver-side object.
    fn gl_id(&self) -> GLuint;
}

} // verus!

//! One compiled shader stage.

use crate::driver::{gl_fragment_shader, gl_geometry_shader, gl_vertex_shader, DriverReply};
use crate::driver::{fragment_shader_tag, geometry_shader_tag, vertex_shader_tag};
use crate::error::ShaderError;
use crate::GLId;
use gl::types::{GLenum, GLuint};
use vstd::prelude::*;
use vstd::string::StrSliceExecFns;

verus! {

/// A compiled stage: the driver's handle and the stage type it was compiled
/// as. There is no copy of a stage: whoever holds the value owns the
/// driver-side object.
#[derive(Debug)]
pub struct Shader {
    id: GLuint,
    ty: GLenum,
}

/// What a [`Shader`] stands for.
pub struct ShaderView {
    pub id: GLuint,
    pub ty: GLenum,
}

impl View for Shader {
    type V = ShaderView;

    closed spec fn view(&self) -> ShaderView {
        ShaderView { id: self.id, ty: self.ty }
    }
}

/// The file ending of a vertex stage, `.vert`.
pub open spec fn vert_ending() -> Seq<char> {
    seq!['.', 'v', 'e', 'r', 't']
}

/// The file ending of a fragment stage, `.frag`.
pub open spec fn frag_ending() -> Seq<char> {
    seq!['.', 'f', 'r', 'a', 'g']
}

/// The file ending of a geometry stage, `.geom`.
pub open spec fn geom_ending() -> Seq<char> {
    seq!['.', 'g', 'e', 'o', 'm']
}

/// The stage type that a file of this name holds, if its ending is known.
pub open spec fn stage_type_of(name: Seq<char>) -> Option<GLenum> {
    if vert_ending().is_suffix_of(name) {
        Some(vertex_shader_tag())
    } else if frag_ending().is_suffix_of(name) {
        Some(fragment_shader_tag())
    } else if geom_ending().is_suffix_of(name) {
        Some(geometry_shader_tag())
    } else {
        None
    }
}

/// Whether `text` ends with `ending`.
pub fn ends_with(text: &str, ending: &str) -> (found: bool)
    ensures
        found == ending@.is_suffix_of(text@),
{
    let n = text.unicode_len();
    let m = ending.unicode_len();
    if m > n {
        return false;
    }
    let start = n - m;
    let mut i: usize = 0;
    while i < m
        invariant
            n == text@.len(),
            m == ending@.len(),
            m <= n,
            start == n - m,
            i <= m,
            forall|j: int| 0 <= j < i ==> text@[start + j] == ending@[j],
        decreases m - i,
    {
        if text.get_char(start + i) != ending.get_char(i) {
            assert(text@.subrange(start as int, n as int)[i as int] != ending@[i as int]);
            return false;
        }
        i += 1;
    }
    assert(ending@ =~= text@.subrange(start as int, n as int));
    true
}

impl Shader {
    /// The stage that the driver compiled under the handle `id` as a stage of
    /// type `ty`, given the driver's answer to the compile request: the stage
    /// if it passed, else the driver's log as a
    /// [`ShaderError::CompileError`].
    pub fn from_str(id: GLuint, ty: GLenum, reply: DriverReply) -> (made: Result<
        Shader,
        ShaderError,
    >)
        ensures
            match reply {
                DriverReply::Passed => made is Ok && made->Ok_0@ == (ShaderView { id, ty }),
                DriverReply::Failed(log) => made == Err::<Shader, ShaderError>(
                    ShaderError::CompileError(log),
                ),
            },
    {
        match reply {
            DriverReply::Passed => Ok(Shader { id, ty }),
            DriverReply::Failed(log) => Err(ShaderError::CompileError(log)),
        }
    }

    /// The stage type as which the file `name` is to be compiled, decided by
    /// the name's ending alone: `.vert`, `.frag` or `.geom`. A name with any
    /// other ending is refused with [`ShaderError::FileNameError`], before
    /// the file is touched.
    pub fn from_file(name: &str) -> (ty: Result<GLenum, ShaderError>)
        ensures
            match stage_type_of(name@) {
                Some(tag) => ty == Ok::<GLenum, ShaderError>(tag),
                None => ty == Err::<GLenum, ShaderError>(ShaderError::FileNameError),
            },
    {
        proof {
            reveal_strlit(".vert");
            reveal_strlit(".frag");
            reveal_strlit(".geom");
            assert(".vert"@ =~= vert_ending());
            assert(".frag"@ =~= frag_ending());
            assert(".geom"@ =~= geom_ending());
        }
        if ends_with(name, ".vert") {
            Ok(gl_vertex_shader())
        } else if ends_with(name, ".frag") {
            Ok(gl_fragment_shader())
        } else if ends_with(name, ".geom") {
            Ok(gl_geometry_shader())
        } else {
            Err(ShaderError::FileNameError)
        }
    }

    /// The source text, given what reading the file came to: the text that
    /// was read, or the file system's error as a [`ShaderError::FileError`].
    pub fn source_from(read: Result<String, std::io::Error>) -> (source: Result<
        String,
        ShaderError,
    >)
        ensures
            match read {
                Ok(text) => source == Ok::<String, ShaderError>(text),
                Err(err) => source == Err::<String, ShaderError>(ShaderError::FileError(err)),
            },
    {
        match read {
            Ok(text) => Ok(text),
            Err(err) => Err(ShaderError::FileError(err)),
        }
    }

    /// The stage type: whether this is a vertex, fragment or geometry stage.
    pub fn shader_type(&self) -> (ty: GLenum)
        ensures
            ty == self@.ty,
    {
        self.ty
    }
}

impl GLId for Shader {
    fn gl_id(&self) -> (id: GLuint)
        ensures
            id == self@.id,
    {
        self.id
    }
}

} // verus!

//! Shader stages: creation, source upload, and the compile state machine.
//!
//! The driver generates handles, decides compilation, and writes the info
//! log; those driver answers enter the verified state machine as arguments.
//! [`Shader::compile_request`] says which native calls to make,
//! [`Shader::finish_compile`] says exactly what each driver verdict means
//! for the shader's state and for the caller's result.

use vstd::prelude::*;
use crate::GLFlag;
use crate::commands::GlCommand;
use crate::types::{GLboolean, GLenum, GLint, GLuint, GL_TRUE};
use crate::utility::create_blank_cstring;

verus! {

pub const VERTEX_SHADER: GLenum = 0x8B31;

pub const TESS_EVALUATION_SHADER: GLenum = 0x8E87;

pub const TESS_CONTROL_SHADER: GLenum = 0x8E88;

pub const FRAGMENT_SHADER: GLenum = 0x8B30;

pub const GEOMETRY_SHADER: GLenum = 0x8DD9;

pub const SHADER_TYPE: GLenum = 0x8B4F;

pub const DELETE_STATUS: GLenum = 0x8B80;

pub const COMPILE_STATUS: GLenum = 0x8B81;

pub const INFO_LOG_LENGTH: GLenum = 0x8B84;

pub const SHADER_SOURCE_LENGTH: GLenum = 0x8B88;

pub type ShaderResult<T> = Result<T, ShaderError>;

/// The closed set of shader stages. A shader carries exactly one of these
/// for its whole lifetime.
#[derive(Clone, Copy, PartialEq, Eq, Structural, Debug)]
pub enum ShaderKind {
    Vertex,
    TessEvaluation,
    TessControl,
    Fragment,
    Geometry,
}

impl ShaderKind {
    /// The native constant of this stage.
    pub open spec fn spec_value(self) -> GLenum {
        match self {
            ShaderKind::Vertex => VERTEX_SHADER,
            ShaderKind::TessEvaluation => TESS_EVALUATION_SHADER,
            ShaderKind::TessControl => TESS_CONTROL_SHADER,
            ShaderKind::Fragment => FRAGMENT_SHADER,
            ShaderKind::Geometry => GEOMETRY_SHADER,
        }
    }
}

impl GLFlag for ShaderKind {
    open spec fn spec_gl_value(&self) -> GLenum {
        self.spec_value()
    }

    fn gl_value(&self) -> (v: GLenum) {
        match *self {
            ShaderKind::Vertex => VERTEX_SHADER,
            ShaderKind::TessEvaluation => TESS_EVALUATION_SHADER,
            ShaderKind::TessControl => TESS_CONTROL_SHADER,
            ShaderKind::Fragment => FRAGMENT_SHADER,
            ShaderKind::Geometry => GEOMETRY_SHADER,
        }
    }
}

/// The parameters a shader can be queried for.
#[derive(Clone, Copy, PartialEq, Eq, Structural, Debug)]
pub enum ShaderParameter {
    Type,
    DeleteStatus,
    CompileStatus,
    InfoLogLength,
    SourceLength,
}

impl ShaderParameter {
    /// The native constant of this query parameter.
    pub open spec fn spec_value(self) -> GLenum {
        match self {
            ShaderParameter::Type => SHADER_TYPE,
            ShaderParameter::DeleteStatus => DELETE_STATUS,
            ShaderParameter::CompileStatus => COMPILE_STATUS,
            ShaderParameter::InfoLogLength => INFO_LOG_LENGTH,
            ShaderParameter::SourceLength => SHADER_SOURCE_LENGTH,
        }
    }

    pub fn value(self) -> (v: GLenum)
        ensures
            v == self.spec_value(),
    {
        match self {
            ShaderParameter::Type => SHADER_TYPE,
            ShaderParameter::DeleteStatus => DELETE_STATUS,
            ShaderParameter::CompileStatus => COMPILE_STATUS,
            ShaderParameter::InfoLogLength => INFO_LOG_LENGTH,
            ShaderParameter::SourceLength => SHADER_SOURCE_LENGTH,
        }
    }
}

/// How shader operations fail: the driver returned the null handle on
/// creation, or rejected the source, in which case the diagnostic text is
/// carried verbatim.
#[derive(Clone, PartialEq, Eq, Debug)]
pub enum ShaderError {
    CreationError,
    CompilationError(Vec<u8>),
}

/// Shader source text, held as bytes with no interior NUL so that it can be
/// handed to the driver as a C string.
#[derive(Clone, PartialEq, Eq, Debug)]
pub struct ShaderSource {
    string: Vec<u8>,
}

impl ShaderSource {
    /// The source bytes.
    pub closed spec fn spec_bytes(self) -> Seq<u8> {
        self.string@
    }

    /// No byte of the source is NUL.
    pub open spec fn wf(self) -> bool {
        forall|i: int| 0 <= i < self.spec_bytes().len() ==> self.spec_bytes()[i] != 0
    }

    /// Wraps source bytes, rejecting exactly those holding an interior NUL.
    pub fn new(bytes: Vec<u8>) -> (r: Option<ShaderSource>)
        ensures
            r matches Some(s) ==> s.wf() && s.spec_bytes() == bytes@,
            r is None <==> exists|i: int| 0 <= i < bytes@.len() && bytes@[i] == 0,
    {
        let mut i: usize = 0;
        while i < bytes.len()
            invariant
                i <= bytes@.len(),
                forall|j: int| 0 <= j < i ==> bytes@[j] != 0,
            decreases bytes@.len() - i,
        {
            if bytes[i] == 0 {
                return None;
            }
            i = i + 1;
        }
        Some(ShaderSource { string: bytes })
    }

    pub fn bytes(&self) -> (b: &Vec<u8>)
        ensures
            b@ == self.spec_bytes(),
    {
        &self.string
    }
}

/// One shader stage: a native handle, permanently tagged with its stage
/// kind, and whether its last compile succeeded.
pub struct Shader {
    id: GLuint,
    kind: ShaderKind,
    compiled: bool,
}

impl Shader {
    /// The native handle.
    pub closed spec fn spec_id(self) -> GLuint {
        self.id
    }

    /// The stage this shader is tagged with.
    pub closed spec fn spec_kind(self) -> ShaderKind {
        self.kind
    }

    /// Whether the last compile succeeded.
    pub closed spec fn spec_compiled(self) -> bool {
        self.compiled
    }

    /// A created shader holds a non-null handle.
    pub open spec fn wf(self) -> bool {
        self.spec_id() != 0
    }

    /// Validates the handle the driver generated for a new shader of the
    /// given stage: the null handle means creation failed.
    pub fn create(id: GLuint, kind: ShaderKind) -> (r: ShaderResult<Shader>)
        ensures
            id != 0 <==> r is Ok,
            r matches Ok(s) ==> {
                &&& s.wf()
                &&& s.spec_id() == id
                &&& s.spec_kind() == kind
                &&& !s.spec_compiled()
            },
            r matches Err(e) ==> e == ShaderError::CreationError,
    {
        if id != 0 {
            Ok(Shader::new(id, kind))
        } else {
            Err(ShaderError::CreationError)
        }
    }

    fn new(id: GLuint, kind: ShaderKind) -> (s: Shader)
        ensures
            s.spec_id() == id,
            s.spec_kind() == kind,
            !s.spec_compiled(),
    {
        Shader { id, kind, compiled: false }
    }

    pub fn id(&self) -> (i: GLuint)
        ensures
            i == self.spec_id(),
    {
        self.id
    }

    pub fn kind(&self) -> (k: ShaderKind)
        ensures
            k == self.spec_kind(),
    {
        self.kind
    }

    pub fn compiled(&self) -> (c: bool)
        ensures
            c == self.spec_compiled(),
    {
        self.compiled
    }

    /// The native calls a compile takes: hand the shader its source, then
    /// ask the driver to compile it.
    pub fn compile_request(&self, src: &ShaderSource) -> (cmds: Vec<GlCommand>)
        requires
            src.wf(),
        ensures
            cmds@.len() == 2,
            cmds@[0] == (GlCommand::UploadShaderSource { shader: self.spec_id() }),
            cmds@[1] == (GlCommand::CompileShader { shader: self.spec_id() }),
    {
        let mut cmds: Vec<GlCommand> = Vec::new();
        cmds.push(GlCommand::UploadShaderSource { shader: self.id });
        cmds.push(GlCommand::CompileShader { shader: self.id });
        cmds
    }

    /// Records the driver's compile verdict. Success leaves the shader
    /// compiled and ready to attach; failure leaves it uncompiled — the
    /// handle stays valid and it may be compiled again — and carries the
    /// driver's diagnostic text verbatim.
    pub fn finish_compile(&mut self, status: GLboolean, log: Vec<u8>) -> (r: ShaderResult<()>)
        requires
            old(self).wf(),
        ensures
            final(self).wf(),
            final(self).spec_id() == old(self).spec_id(),
            final(self).spec_kind() == old(self).spec_kind(),
            final(self).spec_compiled() == (status == GL_TRUE),
            status == GL_TRUE ==> r is Ok,
            status != GL_TRUE ==> r == Err::<(), ShaderError>(ShaderError::CompilationError(log)),
    {
        if status == GL_TRUE {
            self.compiled = true;
            Ok(())
        } else {
            self.compiled = false;
            Err(ShaderError::CompilationError(log))
        }
    }

    /// The blank buffer and the native call that fetch this shader's info
    /// log, given the log length the driver reported: a buffer of that many
    /// spaces plus room for the terminating NUL.
    pub fn info_log_request(&self, log_len: GLint) -> (r: (Vec<u8>, GlCommand))
        requires
            0 <= log_len,
        ensures
            r.0@.len() == log_len + 2,
            forall|i: int| 0 <= i < log_len + 1 ==> r.0@[i] == 32u8,
            r.0@[log_len + 1] == 0u8,
            r.1 == (GlCommand::GetShaderInfoLog { shader: self.spec_id(), max_len: log_len }),
    {
        let buff = create_blank_cstring(log_len as usize + 1);
        (buff, GlCommand::GetShaderInfoLog { shader: self.id, max_len: log_len })
    }

    /// Releases the native handle. Consumes the shader: no operation on it
    /// is possible afterwards.
    pub fn destroy(self) -> (cmd: GlCommand)
        ensures
            cmd == (GlCommand::DeleteShader { shader: self.spec_id() }),
    {
        GlCommand::DeleteShader { shader: self.id }
    }
}

/// A shader created successfully always holds a non-null handle.
pub proof fn law_created_shader_nonnull(s: Shader)
    requires
        s.wf(),
    ensures
        s.spec_id() != 0,
{
}

/// Builds a shader in one sweep: create from the generated handle, then
/// compile from the held source.
pub struct ShaderBuilder<'a> {
    source: &'a ShaderSource,
}

impl<'a> ShaderBuilder<'a> {
    /// The source the builder compiles from.
    pub closed spec fn spec_source(self) -> ShaderSource {
        *self.source
    }

    pub fn from_source(src: &'a ShaderSource) -> (b: Self)
        ensures
            b.spec_source() == *src,
    {
        Self { source: src }
    }

    /// Creates and compiles a shader of the given stage from the driver's
    /// answers: the generated handle, the compile verdict, and the log.
    /// Returns the native calls the compile takes (none if creation already
    /// failed) beside the outcome.
    pub fn finish(&self, kind: ShaderKind, id: GLuint, status: GLboolean, log: Vec<u8>) -> (r: (
        Vec<GlCommand>,
        ShaderResult<Shader>,
    ))
        requires
            self.spec_source().wf(),
        ensures
            id == 0 ==> r.1 == Err::<Shader, ShaderError>(ShaderError::CreationError)
                && r.0@.len() == 0,
            id != 0 ==> {
                &&& r.0@.len() == 2
                &&& r.0@[0] == (GlCommand::UploadShaderSource { shader: id })
                &&& r.0@[1] == (GlCommand::CompileShader { shader: id })
                &&& status == GL_TRUE ==> (r.1 matches Ok(s) && s.wf() && s.spec_id() == id
                    && s.spec_kind() == kind && s.spec_compiled())
                &&& status != GL_TRUE ==> r.1 == Err::<Shader, ShaderError>(
                    ShaderError::CompilationError(log),
                )
            },
    {
        let mut shader = match Shader::create(id, kind) {
            Ok(s) => s,
            Err(e) => {
                return (Vec::new(), Err(e));
            },
        };
        let cmds = shader.compile_request(self.source);
        match shader.finish_compile(status, log) {
            Ok(()) => (cmds, Ok(shader)),
            Err(e) => (cmds, Err(e)),
        }
    }
}

} // verus!

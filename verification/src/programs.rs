//! Programs: attach/detach of borrowed shaders and the link state machine.
//!
//! A program registers attached shaders by native id — they are borrowed,
//! never owned. The driver decides linking; its verdict and log enter
//! [`Program::finish_link`] as arguments. Attaching the same shader twice
//! is a caller error the wrapper does not validate.

use vstd::prelude::*;
use crate::commands::GlCommand;
use crate::shaders::{Shader, DELETE_STATUS, INFO_LOG_LENGTH};
use crate::types::{GLboolean, GLenum, GLint, GLuint, GL_TRUE};
use crate::utility::create_blank_cstring;

verus! {

pub const LINK_STATUS: GLenum = 0x8B82;

pub const VALIDATE_STATUS: GLenum = 0x8B83;

pub const ATTACHED_SHADERS: GLenum = 0x8B85;

pub const ACTIVE_ATOMIC_COUNTER_BUFFERS: GLenum = 0x92D9;

pub const ACTIVE_ATTRIBUTES: GLenum = 0x8B89;

pub const ACTIVE_ATTRIBUTE_MAX_LENGTH: GLenum = 0x8B8A;

pub const ACTIVE_UNIFORMS: GLenum = 0x8B86;

pub const ACTIVE_UNIFORM_MAX_LENGTH: GLenum = 0x8B87;

pub const PROGRAM_BINARY_LENGTH: GLenum = 0x8741;

pub const COMPUTE_WORK_GROUP_SIZE: GLenum = 0x8267;

pub const TRANSFORM_FEEDBACK_BUFFER_MODE: GLenum = 0x8C7F;

pub const TRANSFORM_FEEDBACK_VARYINGS: GLenum = 0x8C83;

pub const TRANSFORM_FEEDBACK_VARYING_MAX_LENGTH: GLenum = 0x8C76;

pub const GEOMETRY_VERTICES_OUT: GLenum = 0x8916;

pub const GEOMETRY_INPUT_TYPE: GLenum = 0x8917;

pub const GEOMETRY_OUTPUT_TYPE: GLenum = 0x8918;

pub type ProgramResult<T> = Result<T, ProgramError>;

/// How program operations fail: the driver handed back the null handle on
/// creation, or refused to link, in which case the diagnostic text is
/// carried verbatim.
#[derive(Clone, PartialEq, Eq, Debug)]
pub enum ProgramError {
    CreationError,
    ShaderAllreadyAttached,
    LinkError(Vec<u8>),
}

/// The parameters a program can be queried for.
#[derive(Clone, Copy, PartialEq, Eq, Structural, Debug)]
pub enum ProgramParameter {
    DeleteStatus,
    LinkStatus,
    ValidateStatus,
    InfoLogLength,
    AttachedShaders,
    ActiveAtomicCounterBuffers,
    ActiveAttributes,
    ActiveAttributeMaxLength,
    ActiveUniforms,
    ActiveUniformMaxLength,
    ProgramBinaryLength,
    ComputeWorkGroupSize,
    TransformFeedbackBufferMode,
    TransformFeedbackVaryings,
    TransformFeedbackVaryingMaxLength,
    GeometryVerticesOut,
    GeometryInputType,
    GeometryOutputType,
}

impl ProgramParameter {
    /// The native constant of this query parameter.
    pub open spec fn spec_value(self) -> GLenum {
        match self {
            ProgramParameter::DeleteStatus => DELETE_STATUS,
            ProgramParameter::LinkStatus => LINK_STATUS,
            ProgramParameter::ValidateStatus => VALIDATE_STATUS,
            ProgramParameter::InfoLogLength => INFO_LOG_LENGTH,
            ProgramParameter::AttachedShaders => ATTACHED_SHADERS,
            ProgramParameter::ActiveAtomicCounterBuffers => ACTIVE_ATOMIC_COUNTER_BUFFERS,
            ProgramParameter::ActiveAttributes => ACTIVE_ATTRIBUTES,
            ProgramParameter::ActiveAttributeMaxLength => ACTIVE_ATTRIBUTE_MAX_LENGTH,
            ProgramParameter::ActiveUniforms => ACTIVE_UNIFORMS,
            ProgramParameter::ActiveUniformMaxLength => ACTIVE_UNIFORM_MAX_LENGTH,
            ProgramParameter::ProgramBinaryLength => PROGRAM_BINARY_LENGTH,
            ProgramParameter::ComputeWorkGroupSize => COMPUTE_WORK_GROUP_SIZE,
            ProgramParameter::TransformFeedbackBufferMode => TRANSFORM_FEEDBACK_BUFFER_MODE,
            ProgramParameter::TransformFeedbackVaryings => TRANSFORM_FEEDBACK_VARYINGS,
            ProgramParameter::TransformFeedbackVaryingMaxLength => TRANSFORM_FEEDBACK_VARYING_MAX_LENGTH,
            ProgramParameter::GeometryVerticesOut => GEOMETRY_VERTICES_OUT,
            ProgramParameter::GeometryInputType => GEOMETRY_INPUT_TYPE,
            ProgramParameter::GeometryOutputType => GEOMETRY_OUTPUT_TYPE,
        }
    }

    pub fn value(self) -> (v: GLenum)
        ensures
            v == self.spec_value(),
    {
        match self {
            ProgramParameter::DeleteStatus => DELETE_STATUS,
            ProgramParameter::LinkStatus => LINK_STATUS,
            ProgramParameter::ValidateStatus => VALIDATE_STATUS,
            ProgramParameter::InfoLogLength => INFO_LOG_LENGTH,
            ProgramParameter::AttachedShaders => ATTACHED_SHADERS,
            ProgramParameter::ActiveAtomicCounterBuffers => ACTIVE_ATOMIC_COUNTER_BUFFERS,
            ProgramParameter::ActiveAttributes => ACTIVE_ATTRIBUTES,
            ProgramParameter::ActiveAttributeMaxLength => ACTIVE_ATTRIBUTE_MAX_LENGTH,
            ProgramParameter::ActiveUniforms => ACTIVE_UNIFORMS,
            ProgramParameter::ActiveUniformMaxLength => ACTIVE_UNIFORM_MAX_LENGTH,
            ProgramParameter::ProgramBinaryLength => PROGRAM_BINARY_LENGTH,
            ProgramParameter::ComputeWorkGroupSize => COMPUTE_WORK_GROUP_SIZE,
            ProgramParameter::TransformFeedbackBufferMode => TRANSFORM_FEEDBACK_BUFFER_MODE,
            ProgramParameter::TransformFeedbackVaryings => TRANSFORM_FEEDBACK_VARYINGS,
            ProgramParameter::TransformFeedbackVaryingMaxLength => TRANSFORM_FEEDBACK_VARYING_MAX_LENGTH,
            ProgramParameter::GeometryVerticesOut => GEOMETRY_VERTICES_OUT,
            ProgramParameter::GeometryInputType => GEOMETRY_INPUT_TYPE,
            ProgramParameter::GeometryOutputType => GEOMETRY_OUTPUT_TYPE,
        }
    }
}

/// `i` is where `x` first occurs in `s`.
pub open spec fn is_first_index_of(s: Seq<GLuint>, x: GLuint, i: int) -> bool {
    &&& 0 <= i < s.len()
    &&& s[i] == x
    &&& forall|j: int| 0 <= j < i ==> s[j] != x
}

/// A linked pipeline object: a native handle, the ids of the shaders
/// registered with it, and whether its last link succeeded.
pub struct Program {
    id: GLuint,
    attached: Vec<GLuint>,
    linked: bool,
}

impl Program {
    /// The native handle.
    pub closed spec fn spec_id(self) -> GLuint {
        self.id
    }

    /// The native ids of the registered shaders, in attachment order, with
    /// repetitions if a caller attached one twice.
    pub closed spec fn spec_attached(self) -> Seq<GLuint> {
        self.attached@
    }

    /// Whether the last link succeeded.
    pub closed spec fn spec_linked(self) -> bool {
        self.linked
    }

    /// A created program holds a non-null handle.
    pub open spec fn wf(self) -> bool {
        self.spec_id() != 0
    }

    /// Validates the handle the driver generated for a new program: the
    /// null handle means creation failed.
    pub fn create(id: GLuint) -> (r: ProgramResult<Program>)
        ensures
            id != 0 <==> r is Ok,
            r matches Ok(p) ==> {
                &&& p.wf()
                &&& p.spec_id() == id
                &&& p.spec_attached() == Seq::<GLuint>::empty()
                &&& !p.spec_linked()
            },
            r matches Err(e) ==> e == ProgramError::CreationError,
    {
        if id != 0 {
            let attached: Vec<GLuint> = Vec::new();
            proof {
                assert(attached@ =~= Seq::<GLuint>::empty());
            }
            Ok(Program { id, attached, linked: false })
        } else {
            Err(ProgramError::CreationError)
        }
    }

    pub fn id(&self) -> (i: GLuint)
        ensures
            i == self.spec_id(),
    {
        self.id
    }

    pub fn linked(&self) -> (l: bool)
        ensures
            l == self.spec_linked(),
    {
        self.linked
    }

    /// The registered shader ids, in attachment order.
    pub fn attached(&self) -> (a: &Vec<GLuint>)
        ensures
            a@ == self.spec_attached(),
    {
        &self.attached
    }

    /// Registers the borrowed shader by native id. The wrapper does not
    /// validate double attachment: the same id may appear twice.
    pub fn attach_shader(&mut self, shader: &Shader) -> (cmd: GlCommand)
        requires
            old(self).wf(),
        ensures
            final(self).wf(),
            final(self).spec_id() == old(self).spec_id(),
            final(self).spec_linked() == old(self).spec_linked(),
            final(self).spec_attached() == old(self).spec_attached().push(shader.spec_id()),
            cmd == (GlCommand::AttachShader {
                program: old(self).spec_id(),
                shader: shader.spec_id(),
            }),
    {
        let sid = shader.id();
        self.attached.push(sid);
        GlCommand::AttachShader { program: self.id, shader: sid }
    }

    /// Unregisters the borrowed shader: the first registration of its id is
    /// removed, or nothing changes if it was never attached. The native call
    /// is issued either way, as the driver tolerates it.
    pub fn detach_shader(&mut self, shader: &Shader) -> (cmd: GlCommand)
        requires
            old(self).wf(),
        ensures
            final(self).wf(),
            final(self).spec_id() == old(self).spec_id(),
            final(self).spec_linked() == old(self).spec_linked(),
            cmd == (GlCommand::DetachShader {
                program: old(self).spec_id(),
                shader: shader.spec_id(),
            }),
            !old(self).spec_attached().contains(shader.spec_id()) ==> final(self).spec_attached()
                == old(self).spec_attached(),
            forall|i: int|
                is_first_index_of(old(self).spec_attached(), shader.spec_id(), i)
                    ==> final(self).spec_attached() == old(self).spec_attached().remove(i),
    {
        let sid = shader.id();
        let mut i: usize = 0;
        while i < self.attached.len()
            invariant
                old(self).wf(),
                i <= self.attached@.len(),
                forall|j: int| 0 <= j < i ==> self.attached@[j] != sid,
                sid == shader.spec_id(),
                self.id == old(self).id,
                self.attached == old(self).attached,
                self.linked == old(self).linked,
            decreases self.attached@.len() - i,
        {
            if self.attached[i] == sid {
                self.attached.remove(i);
                proof {
                    assert(is_first_index_of(old(self).spec_attached(), sid, i as int));
                }
                return GlCommand::DetachShader { program: self.id, shader: sid };
            }
            i = i + 1;
        }
        GlCommand::DetachShader { program: self.id, shader: sid }
    }

    /// The native call a link takes.
    pub fn link_request(&self) -> (cmd: GlCommand)
        ensures
            cmd == (GlCommand::LinkProgram { program: self.spec_id() }),
    {
        GlCommand::LinkProgram { program: self.id }
    }

    /// Records the driver's link verdict. Failure carries the diagnostic
    /// text verbatim; the handle and the attachments stay valid, so the
    /// attachments may be changed and the link retried. Re-linking
    /// re-evaluates the verdict either way.
    pub fn finish_link(&mut self, status: GLboolean, log: Vec<u8>) -> (r: ProgramResult<()>)
        requires
            old(self).wf(),
        ensures
            final(self).wf(),
            final(self).spec_id() == old(self).spec_id(),
            final(self).spec_attached() == old(self).spec_attached(),
            final(self).spec_linked() == (status == GL_TRUE),
            status == GL_TRUE ==> r is Ok,
            status != GL_TRUE ==> r == Err::<(), ProgramError>(ProgramError::LinkError(log)),
    {
        if status == GL_TRUE {
            self.linked = true;
            Ok(())
        } else {
            self.linked = false;
            Err(ProgramError::LinkError(log))
        }
    }

    /// The blank buffer and the native call that fetch this program's info
    /// log, given the log length the driver reported: a buffer of that many
    /// spaces plus room for the terminating NUL.
    pub fn info_log_request(&self, log_len: GLint) -> (r: (Vec<u8>, GlCommand))
        requires
            0 <= log_len,
        ensures
            r.0@.len() == log_len + 2,
            forall|i: int| 0 <= i < log_len + 1 ==> r.0@[i] == 32u8,
            r.0@[log_len + 1] == 0u8,
            r.1 == (GlCommand::GetProgramInfoLog { program: self.spec_id(), max_len: log_len }),
    {
        let buff = create_blank_cstring(log_len as usize + 1);
        (buff, GlCommand::GetProgramInfoLog { program: self.id, max_len: log_len })
    }

    /// Releases the native handle. Consumes the program: no operation on it
    /// is possible afterwards. Attached shaders are borrowed, so none is
    /// released with it.
    pub fn destroy(self) -> (cmd: GlCommand)
        ensures
            cmd == (GlCommand::DeleteProgram { program: self.spec_id() }),
    {
        GlCommand::DeleteProgram { program: self.id }
    }
}

/// A program created successfully always holds a non-null handle.
pub proof fn law_created_program_nonnull(p: Program)
    requires
        p.wf(),
    ensures
        p.spec_id() != 0,
{
}

} // verus!

//! Vertex array objects: a binding configuration built from one buffer.
//!
//! A VAO owns the buffer it was built from. Binding the VAO binds its
//! native handle, binds the owned buffer, and applies the buffer's
//! registered vertex layout, all in one sweep. Destroying the VAO destroys
//! the owned buffer with it.

use vstd::prelude::*;
use crate::buffers::{Buffer, BufferKind, ARRAY_BUFFER};
use crate::commands::GlCommand;
use crate::layout::Layout;
use crate::state::BindingState;
use crate::types::GLuint;

verus! {

pub type VaoResult<T> = Result<T, VaoError>;

/// The one way creating a vertex array fails: the driver handed back the
/// null handle.
#[derive(Clone, Copy, PartialEq, Eq, Structural, Debug)]
pub enum VaoError {
    CreationError,
}

/// A vertex array object: a native handle plus the vertex buffer it was
/// built from and exclusively owns.
pub struct VertexArrayObject {
    id: GLuint,
    vertex_buffer: Buffer,
}

impl VertexArrayObject {
    /// The native handle.
    pub closed spec fn spec_id(self) -> GLuint {
        self.id
    }

    /// The owned vertex buffer.
    pub closed spec fn spec_buffer(self) -> Buffer {
        self.vertex_buffer
    }

    /// The owned buffer's registered layout.
    pub open spec fn spec_layout(self) -> Layout {
        self.spec_buffer().spec_layout()->0
    }

    /// A created VAO holds a non-null handle and owns a well formed,
    /// loaded vertex buffer.
    pub open spec fn wf(self) -> bool {
        &&& self.spec_id() != 0
        &&& self.spec_buffer().wf()
        &&& self.spec_buffer().spec_kind() == BufferKind::Array
        &&& self.spec_buffer().spec_layout() is Some
    }

    /// Validates the handle the driver generated for a new vertex array and
    /// takes ownership of the buffer, whose layout the VAO will apply when
    /// bound. The null handle means creation failed, and the buffer is
    /// handed back.
    pub fn create(id: GLuint, buffer: Buffer) -> (r: Result<
        VertexArrayObject,
        (Buffer, VaoError),
    >)
        requires
            buffer.wf(),
            buffer.spec_kind() == BufferKind::Array,
            buffer.spec_layout() is Some,
        ensures
            id != 0 <==> r is Ok,
            r matches Ok(v) ==> v.wf() && v.spec_id() == id && v.spec_buffer() == buffer,
            r matches Err((b, e)) ==> b == buffer && e == VaoError::CreationError,
    {
        if id != 0 {
            Ok(VertexArrayObject { id, vertex_buffer: buffer })
        } else {
            Err((buffer, VaoError::CreationError))
        }
    }

    pub fn id(&self) -> (i: GLuint)
        ensures
            i == self.spec_id(),
    {
        self.id
    }

    pub fn buffer(&self) -> (b: &Buffer)
        ensures
            *b == self.spec_buffer(),
    {
        &self.vertex_buffer
    }

    /// Binds the VAO's native handle and, as part of the same call, binds
    /// its owned buffer and applies that buffer's vertex layout.
    pub fn bind(&self, state: &mut BindingState) -> (cmds: Vec<GlCommand>)
        requires
            self.wf(),
        ensures
            *final(state) == old(state).with_vertex_array(self.spec_id()).with_binding(
                BufferKind::Array,
                self.spec_buffer().spec_id(),
            ),
            cmds@.len() == 2 + self.spec_layout().spec_apply().len(),
            cmds@[0] == (GlCommand::BindVertexArray { array: self.spec_id() }),
            cmds@[1] == (GlCommand::BindBuffer {
                target: ARRAY_BUFFER,
                buffer: self.spec_buffer().spec_id(),
            }),
            cmds@.skip(2) == self.spec_layout().spec_apply(),
    {
        let mut cmds: Vec<GlCommand> = Vec::new();
        state.set_vertex_array(self.id);
        cmds.push(GlCommand::BindVertexArray { array: self.id });
        let bind_cmd = self.vertex_buffer.bind(state);
        cmds.push(bind_cmd);
        match self.vertex_buffer.layout() {
            Some(l) => {
                let mut applied = l.apply();
                cmds.append(&mut applied);
            },
            None => {
                proof {
                    assert(false);
                }
            },
        }
        proof {
            assert(cmds@.skip(2) =~= self.spec_layout().spec_apply());
        }
        cmds
    }

    /// Binds the null vertex array. Target-scoped: it empties the binding
    /// point whatever was bound.
    pub fn unbind(state: &mut BindingState) -> (cmd: GlCommand)
        ensures
            *final(state) == old(state).with_vertex_array(0),
            cmd == (GlCommand::BindVertexArray { array: 0 }),
    {
        state.set_vertex_array(0);
        GlCommand::BindVertexArray { array: 0 }
    }

    /// Releases the VAO handle and, by the ownership cascade, the owned
    /// buffer's handle too. Consumes the VAO: no operation on it is
    /// possible afterwards.
    pub fn destroy(self) -> (cmds: Vec<GlCommand>)
        ensures
            cmds@.len() == 2,
            cmds@[0] == (GlCommand::DeleteVertexArray { array: self.spec_id() }),
            cmds@[1] == (GlCommand::DeleteBuffer { buffer: self.spec_buffer().spec_id() }),
    {
        let VertexArrayObject { id, vertex_buffer } = self;
        let mut cmds: Vec<GlCommand> = Vec::new();
        cmds.push(GlCommand::DeleteVertexArray { array: id });
        let del = vertex_buffer.destroy();
        cmds.push(del);
        cmds
    }
}

/// A vertex array created successfully always holds a non-null handle, and
/// so does the buffer it owns.
pub proof fn law_created_vao_nonnull(v: VertexArrayObject)
    requires
        v.wf(),
    ensures
        v.spec_id() != 0,
        v.spec_buffer().spec_id() != 0,
{
}

} // verus!

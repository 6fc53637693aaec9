//! Data buffers: driver-resident byte stores tagged with a fixed bind target.
//!
//! A [`Buffer`] owns one native handle, is permanently tagged with one
//! [`BufferKind`], and mirrors the bytes last uploaded to its store so that
//! contracts can speak of its contents. The driver generates the handle, so
//! [`Buffer::create`] takes that handle as an argument and validates it.

use vstd::prelude::*;
use vstd::slice::slice_to_vec;
use crate::GLFlag;
use crate::commands::GlCommand;
use crate::layout::Layout;
use crate::state::BindingState;
use crate::types::{GLenum, GLuint};

verus! {

pub const ARRAY_BUFFER: GLenum = 0x8892;

pub const ELEMENT_ARRAY_BUFFER: GLenum = 0x8893;

pub const PIXEL_PACK_BUFFER: GLenum = 0x88EB;

pub const PIXEL_UNPACK_BUFFER: GLenum = 0x88EC;

pub const COPY_READ_BUFFER: GLenum = 0x8F36;

pub const COPY_WRITE_BUFFER: GLenum = 0x8F37;

pub const TRANSFORM_FEEDBACK_BUFFER: GLenum = 0x8C8E;

pub const UNIFORM_BUFFER: GLenum = 0x8A11;

pub const STREAM_DRAW: GLenum = 0x88E0;

pub const STREAM_READ: GLenum = 0x88E1;

pub const STREAM_COPY: GLenum = 0x88E2;

pub const STATIC_DRAW: GLenum = 0x88E4;

pub const STATIC_READ: GLenum = 0x88E5;

pub const STATIC_COPY: GLenum = 0x88E6;

pub const DYNAMIC_DRAW: GLenum = 0x88E8;

pub const DYNAMIC_READ: GLenum = 0x88E9;

pub const DYNAMIC_COPY: GLenum = 0x88EA;

/// The closed set of buffer bind targets. A buffer carries exactly one of
/// these for its whole lifetime.
#[derive(Clone, Copy, PartialEq, Eq, Structural, Debug)]
pub enum BufferKind {
    Array,
    ElementArray,
    PixelPack,
    PixelUnpack,
    CopyRead,
    CopyWrite,
    TransformFeedback,
    Uniform,
}

impl BufferKind {
    /// The native constant of this bind target.
    pub open spec fn spec_value(self) -> GLenum {
        match self {
            BufferKind::Array => ARRAY_BUFFER,
            BufferKind::ElementArray => ELEMENT_ARRAY_BUFFER,
            BufferKind::PixelPack => PIXEL_PACK_BUFFER,
            BufferKind::PixelUnpack => PIXEL_UNPACK_BUFFER,
            BufferKind::CopyRead => COPY_READ_BUFFER,
            BufferKind::CopyWrite => COPY_WRITE_BUFFER,
            BufferKind::TransformFeedback => TRANSFORM_FEEDBACK_BUFFER,
            BufferKind::Uniform => UNIFORM_BUFFER,
        }
    }
}

impl GLFlag for BufferKind {
    open spec fn spec_gl_value(&self) -> GLenum {
        self.spec_value()
    }

    fn gl_value(&self) -> (v: GLenum) {
        match *self {
            BufferKind::Array => ARRAY_BUFFER,
            BufferKind::ElementArray => ELEMENT_ARRAY_BUFFER,
            BufferKind::PixelPack => PIXEL_PACK_BUFFER,
            BufferKind::PixelUnpack => PIXEL_UNPACK_BUFFER,
            BufferKind::CopyRead => COPY_READ_BUFFER,
            BufferKind::CopyWrite => COPY_WRITE_BUFFER,
            BufferKind::TransformFeedback => TRANSFORM_FEEDBACK_BUFFER,
            BufferKind::Uniform => UNIFORM_BUFFER,
        }
    }
}

/// The usage hint a buffer store is allocated under: how often it will be
/// written (stream, static, dynamic) crossed with who reads it (draw, read,
/// copy). A hint to the driver's allocator, not a correctness condition.
#[derive(Clone, Copy, PartialEq, Eq, Structural, Debug)]
pub enum BufferUsageMode {
    StreamDraw,
    StreamRead,
    StreamCopy,
    StaticDraw,
    StaticRead,
    StaticCopy,
    DynamicDraw,
    DynamicRead,
    DynamicCopy,
}

impl BufferUsageMode {
    /// The native constant of this usage hint.
    pub open spec fn spec_value(self) -> GLenum {
        match self {
            BufferUsageMode::StreamDraw => STREAM_DRAW,
            BufferUsageMode::StreamRead => STREAM_READ,
            BufferUsageMode::StreamCopy => STREAM_COPY,
            BufferUsageMode::StaticDraw => STATIC_DRAW,
            BufferUsageMode::StaticRead => STATIC_READ,
            BufferUsageMode::StaticCopy => STATIC_COPY,
            BufferUsageMode::DynamicDraw => DYNAMIC_DRAW,
            BufferUsageMode::DynamicRead => DYNAMIC_READ,
            BufferUsageMode::DynamicCopy => DYNAMIC_COPY,
        }
    }

    pub fn value(self) -> (v: GLenum)
        ensures
            v == self.spec_value(),
    {
        match self {
            BufferUsageMode::StreamDraw => STREAM_DRAW,
            BufferUsageMode::StreamRead => STREAM_READ,
            BufferUsageMode::StreamCopy => STREAM_COPY,
            BufferUsageMode::StaticDraw => STATIC_DRAW,
            BufferUsageMode::StaticRead => STATIC_READ,
            BufferUsageMode::StaticCopy => STATIC_COPY,
            BufferUsageMode::DynamicDraw => DYNAMIC_DRAW,
            BufferUsageMode::DynamicRead => DYNAMIC_READ,
            BufferUsageMode::DynamicCopy => DYNAMIC_COPY,
        }
    }
}

/// The one way creating a buffer fails: the driver handed back the null handle.
#[derive(Clone, Copy, PartialEq, Eq, Structural, Debug)]
pub enum BufferError {
    CreationError,
}

/// A driver-resident byte store. Owns its handle exclusively; its tag fixes
/// its bind target permanently; mirrors the bytes last uploaded, so that a
/// read-back of the store is the mirrored bytes.
pub struct Buffer {
    id: GLuint,
    kind: BufferKind,
    layout: Option<Layout>,
    contents: Vec<u8>,
}

impl Buffer {
    /// The native handle.
    pub closed spec fn spec_id(self) -> GLuint {
        self.id
    }

    /// The bind target this buffer is tagged with.
    pub closed spec fn spec_kind(self) -> BufferKind {
        self.kind
    }

    /// The layout registered by the last upload, if any.
    pub closed spec fn spec_layout(self) -> Option<Layout> {
        self.layout
    }

    /// The bytes the store holds.
    pub closed spec fn spec_contents(self) -> Seq<u8> {
        self.contents@
    }

    /// A created buffer holds a non-null handle and, once loaded, a well
    /// formed layout.
    pub open spec fn wf(self) -> bool {
        &&& self.spec_id() != 0
        &&& match self.spec_layout() {
            Some(l) => l.wf(),
            None => true,
        }
    }

    /// Validates the handle the driver generated for a new buffer: the null
    /// handle means creation failed.
    pub fn create(id: GLuint, kind: BufferKind) -> (r: Result<Buffer, BufferError>)
        ensures
            id != 0 <==> r is Ok,
            r matches Ok(b) ==> {
                &&& b.wf()
                &&& b.spec_id() == id
                &&& b.spec_kind() == kind
                &&& b.spec_layout() is None
                &&& b.spec_contents() == Seq::<u8>::empty()
            },
            r matches Err(e) ==> e == BufferError::CreationError,
    {
        if id != 0 {
            let contents: Vec<u8> = Vec::new();
            proof {
                assert(contents@ =~= Seq::<u8>::empty());
            }
            Ok(Buffer { id, kind, layout: None, contents })
        } else {
            Err(BufferError::CreationError)
        }
    }

    pub fn id(&self) -> (i: GLuint)
        ensures
            i == self.spec_id(),
    {
        self.id
    }

    pub fn kind(&self) -> (k: BufferKind)
        ensures
            k == self.spec_kind(),
    {
        self.kind
    }

    pub fn layout(&self) -> (l: &Option<Layout>)
        ensures
            *l == self.spec_layout(),
    {
        &self.layout
    }

    /// The store's bytes, as a read-back of the buffer would see them.
    pub fn read_back(&self) -> (bytes: &Vec<u8>)
        ensures
            bytes@ == self.spec_contents(),
    {
        &self.contents
    }

    /// Replaces the store with the given record bytes — a whole number of
    /// records of the given layout — and registers the layout for later
    /// binding. Returns the upload call: the buffer's full new size, under
    /// the given usage hint. Any previous contents are overwritten.
    pub fn load_data(&mut self, data: &[u8], layout: Layout, mode: BufferUsageMode) -> (cmd:
        GlCommand)
        requires
            old(self).wf(),
            layout.wf(),
            layout.spec_stride() > 0,
            data@.len() as int % (layout.spec_stride() as int) == 0,
        ensures
            final(self).wf(),
            final(self).spec_id() == old(self).spec_id(),
            final(self).spec_kind() == old(self).spec_kind(),
            final(self).spec_layout() == Some(layout),
            final(self).spec_contents() == data@,
            cmd == (GlCommand::BufferData {
                buffer: old(self).spec_id(),
                size: data@.len() as usize,
                usage: mode.spec_value(),
            }),
    {
        let size = data.len();
        self.contents = slice_to_vec(data);
        self.layout = Some(layout);
        GlCommand::BufferData { buffer: self.id, size, usage: mode.value() }
    }

    /// Binds this buffer to its tag's native target, replacing whatever
    /// buffer was bound to that target process-wide.
    pub fn bind(&self, state: &mut BindingState) -> (cmd: GlCommand)
        ensures
            *final(state) == old(state).with_binding(self.spec_kind(), self.spec_id()),
            cmd == (GlCommand::BindBuffer {
                target: self.spec_kind().spec_value(),
                buffer: self.spec_id(),
            }),
    {
        state.set_bound(self.kind, self.id);
        GlCommand::BindBuffer { target: self.kind.gl_value(), buffer: self.id }
    }

    /// Binds the null handle to the given target. Target-scoped, not
    /// instance-scoped: it empties the binding point whatever was bound.
    pub fn unbind(kind: BufferKind, state: &mut BindingState) -> (cmd: GlCommand)
        ensures
            *final(state) == old(state).with_binding(kind, 0),
            cmd == (GlCommand::BindBuffer { target: kind.spec_value(), buffer: 0 }),
    {
        state.set_bound(kind, 0);
        GlCommand::BindBuffer { target: kind.gl_value(), buffer: 0 }
    }

    /// Releases the native handle. Consumes the buffer: no operation on it
    /// is possible afterwards.
    pub fn destroy(self) -> (cmd: GlCommand)
        ensures
            cmd == (GlCommand::DeleteBuffer { buffer: self.spec_id() }),
    {
        GlCommand::DeleteBuffer { buffer: self.id }
    }
}

/// A buffer created successfully always holds a non-null handle.
pub proof fn law_created_buffer_nonnull(b: Buffer)
    requires
        b.wf(),
    ensures
        b.spec_id() != 0,
{
}

/// The factory for tagged buffers, scoped to the context facade.
pub struct Buffers {}

impl Buffers {
    pub fn new() -> (b: Buffers)
    {
        Buffers {}
    }

    /// Creates a buffer tagged `kind` from the handle the driver generated,
    /// and uploads the given record bytes into it. Fails exactly when the
    /// driver returned the null handle.
    pub fn create_buffer(
        &self,
        id: GLuint,
        kind: BufferKind,
        data: &[u8],
        layout: Layout,
        mode: BufferUsageMode,
    ) -> (r: Result<(Buffer, GlCommand), BufferError>)
        requires
            layout.wf(),
            layout.spec_stride() > 0,
            data@.len() as int % (layout.spec_stride() as int) == 0,
        ensures
            id != 0 <==> r is Ok,
            r matches Ok((b, cmd)) ==> {
                &&& b.wf()
                &&& b.spec_id() == id
                &&& b.spec_kind() == kind
                &&& b.spec_layout() == Some(layout)
                &&& b.spec_contents() == data@
                &&& cmd == (GlCommand::BufferData {
                    buffer: id,
                    size: data@.len() as usize,
                    usage: mode.spec_value(),
                })
            },
            r matches Err(e) ==> e == BufferError::CreationError,
    {
        let mut buffer = match Buffer::create(id, kind) {
            Ok(b) => b,
            Err(e) => {
                return Err(e);
            },
        };
        let cmd = buffer.load_data(data, layout, mode);
        Ok((buffer, cmd))
    }
}

} // verus!

//! A model of the driver's process-wide binding points.
//!
//! The native context keeps one current buffer per bind target and one
//! current vertex array. Binding a resource replaces whatever was bound to
//! its target before; binding the null handle (zero) leaves the target
//! empty. This struct mirrors that state so that contracts can say exactly
//! what each bind and unbind does to it.

use vstd::prelude::*;
use crate::buffers::BufferKind;
use crate::types::GLuint;

verus! {

/// The current binding of every target the library touches; zero means
/// nothing is bound there.
#[derive(Clone, Copy, PartialEq, Eq, Structural, Debug)]
pub struct BindingState {
    pub array: GLuint,
    pub element_array: GLuint,
    pub pixel_pack: GLuint,
    pub pixel_unpack: GLuint,
    pub copy_read: GLuint,
    pub copy_write: GLuint,
    pub transform_feedback: GLuint,
    pub uniform: GLuint,
    pub vertex_array: GLuint,
}

impl BindingState {
    /// The state of a fresh context: every binding point holds the null handle.
    pub open spec fn spec_init() -> BindingState {
        BindingState {
            array: 0,
            element_array: 0,
            pixel_pack: 0,
            pixel_unpack: 0,
            copy_read: 0,
            copy_write: 0,
            transform_feedback: 0,
            uniform: 0,
            vertex_array: 0,
        }
    }

    /// The buffer currently bound to the target `kind` tags.
    pub open spec fn bound(self, kind: BufferKind) -> GLuint {
        match kind {
            BufferKind::Array => self.array,
            BufferKind::ElementArray => self.element_array,
            BufferKind::PixelPack => self.pixel_pack,
            BufferKind::PixelUnpack => self.pixel_unpack,
            BufferKind::CopyRead => self.copy_read,
            BufferKind::CopyWrite => self.copy_write,
            BufferKind::TransformFeedback => self.transform_feedback,
            BufferKind::Uniform => self.uniform,
        }
    }

    /// This state with `id` bound to the target `kind` tags, and every other
    /// binding point unchanged.
    pub open spec fn with_binding(self, kind: BufferKind, id: GLuint) -> BindingState {
        match kind {
            BufferKind::Array => BindingState { array: id, ..self },
            BufferKind::ElementArray => BindingState { element_array: id, ..self },
            BufferKind::PixelPack => BindingState { pixel_pack: id, ..self },
            BufferKind::PixelUnpack => BindingState { pixel_unpack: id, ..self },
            BufferKind::CopyRead => BindingState { copy_read: id, ..self },
            BufferKind::CopyWrite => BindingState { copy_write: id, ..self },
            BufferKind::TransformFeedback => BindingState { transform_feedback: id, ..self },
            BufferKind::Uniform => BindingState { uniform: id, ..self },
        }
    }

    /// This state with `id` as the current vertex array, and every buffer
    /// binding unchanged.
    pub open spec fn with_vertex_array(self, id: GLuint) -> BindingState {
        BindingState { vertex_array: id, ..self }
    }

    pub fn new() -> (s: BindingState)
        ensures
            s == BindingState::spec_init(),
    {
        BindingState {
            array: 0,
            element_array: 0,
            pixel_pack: 0,
            pixel_unpack: 0,
            copy_read: 0,
            copy_write: 0,
            transform_feedback: 0,
            uniform: 0,
            vertex_array: 0,
        }
    }

    /// Record that `id` is now bound to the target `kind` tags.
    pub fn set_bound(&mut self, kind: BufferKind, id: GLuint)
        ensures
            *final(self) == old(self).with_binding(kind, id),
    {
        match kind {
            BufferKind::Array => self.array = id,
            BufferKind::ElementArray => self.element_array = id,
            BufferKind::PixelPack => self.pixel_pack = id,
            BufferKind::PixelUnpack => self.pixel_unpack = id,
            BufferKind::CopyRead => self.copy_read = id,
            BufferKind::CopyWrite => self.copy_write = id,
            BufferKind::TransformFeedback => self.transform_feedback = id,
            BufferKind::Uniform => self.uniform = id,
        }
    }

    /// Record that `id` is now the current vertex array.
    pub fn set_vertex_array(&mut self, id: GLuint)
        ensures
            *final(self) == old(self).with_vertex_array(id),
    {
        self.vertex_array = id;
    }
}

/// Unbinding a target twice in a row leaves the same (null) binding state
/// as unbinding it once.
pub proof fn law_unbind_idempotent(s: BindingState, kind: BufferKind)
    ensures
        s.with_binding(kind, 0).with_binding(kind, 0) == s.with_binding(kind, 0),
{
}

/// Unbinding the vertex array twice in a row leaves the same (null) binding
/// state as unbinding it once.
pub proof fn law_unbind_vertex_array_idempotent(s: BindingState)
    ensures
        s.with_vertex_array(0).with_vertex_array(0) == s.with_vertex_array(0),
{
}

} // verus!

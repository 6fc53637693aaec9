//! A safety-typed model of an OpenGL-style resource lifecycle.
//!
//! The library manages the creation, configuration, binding and destruction
//! of driver-resident objects — data buffers, shader stages, programs and
//! vertex-array objects — as verified state machines over plain values.
//! Every operation that would touch the driver returns the exact native
//! call it asks for as a [`commands::GlCommand`] value; an unverified shell
//! around the library performs those calls and feeds the driver's answers
//! (generated handles, status words, info logs) back in as arguments.

use vstd::prelude::*;

pub mod buffers;
pub mod commands;
pub mod errors;
pub mod layout;
pub mod primitives;
pub mod programs;
pub mod shaders;
pub mod state;
pub mod types;
pub mod utility;
pub mod vao;

use crate::buffers::{Buffer, Buffers};
use crate::commands::GlCommand;
use crate::state::BindingState;
use crate::types::GLenum;

verus! {

pub const COLOR_BUFFER_BIT: GLenum = 0x4000;

pub const DEPTH_BUFFER_BIT: GLenum = 0x0100;

pub const STENCIL_BUFFER_BIT: GLenum = 0x0400;

/// A capability tag carries exactly one native enumeration constant.
pub trait GLFlag {
    /// The native constant this tag stands for.
    spec fn spec_gl_value(&self) -> GLenum;

    /// Returns the native constant this tag stands for.
    fn gl_value(&self) -> (v: GLenum)
        ensures
            v == self.spec_gl_value(),
    ;
}

/// The context facade: the process-wide entry point every other component
/// is constructed from. It mirrors the context's binding points, so that
/// binds issued through it say exactly what they do to that state.
pub struct KeterGL {
    state: BindingState,
}

impl KeterGL {
    /// The mirrored binding points of the context.
    pub closed spec fn spec_state(self) -> BindingState {
        self.state
    }

    /// The facade over a freshly loaded context: nothing is bound yet.
    pub fn new() -> (g: KeterGL)
        ensures
            g.spec_state() == BindingState::spec_init(),
    {
        KeterGL { state: BindingState::new() }
    }

    pub fn state(&self) -> (s: BindingState)
        ensures
            s == self.spec_state(),
    {
        self.state
    }

    /// The buffer factory, scoped to this facade.
    pub fn buffers(&self) -> (b: Buffers) {
        Buffers::new()
    }

    /// Binds the given buffer to its tag's target.
    pub fn use_buffer(&mut self, buff: &Buffer) -> (cmd: GlCommand)
        ensures
            final(self).spec_state() == old(self).spec_state().with_binding(
                buff.spec_kind(),
                buff.spec_id(),
            ),
            cmd == (GlCommand::BindBuffer {
                target: buff.spec_kind().spec_value(),
                buffer: buff.spec_id(),
            }),
    {
        buff.bind(&mut self.state)
    }

    /// Clears the buffers the flag selects.
    pub fn clear(&self, buffers: BufferFlag) -> (cmd: GlCommand)
        ensures
            cmd == (GlCommand::Clear { mask: buffers.spec_bits() }),
    {
        GlCommand::Clear { mask: buffers.bits() }
    }

    /// Flushes the command queue.
    pub fn flush(&self) -> (cmd: GlCommand)
        ensures
            cmd == GlCommand::Flush,
    {
        GlCommand::Flush
    }

    /// Blocks until the command queue has drained.
    pub fn finish(&self) -> (cmd: GlCommand)
        ensures
            cmd == GlCommand::Finish,
    {
        GlCommand::Finish
    }
}

/// A clear mask: which buffers of the framebuffer a clear touches.
#[derive(Clone, Copy, PartialEq, Eq, Structural, Debug)]
pub struct BufferFlag(GLenum);

impl BufferFlag {
    /// The native bit mask.
    pub closed spec fn spec_bits(self) -> GLenum {
        self.0
    }

    /// The color buffer alone.
    pub fn color() -> (f: BufferFlag)
        ensures
            f.spec_bits() == COLOR_BUFFER_BIT,
    {
        BufferFlag(COLOR_BUFFER_BIT)
    }

    /// The depth buffer alone.
    pub fn depth() -> (f: BufferFlag)
        ensures
            f.spec_bits() == DEPTH_BUFFER_BIT,
    {
        BufferFlag(DEPTH_BUFFER_BIT)
    }

    /// The stencil buffer alone.
    pub fn stencil() -> (f: BufferFlag)
        ensures
            f.spec_bits() == STENCIL_BUFFER_BIT,
    {
        BufferFlag(STENCIL_BUFFER_BIT)
    }

    /// Both selections at once.
    pub fn or(self, rhs: BufferFlag) -> (f: BufferFlag)
        ensures
            f.spec_bits() == self.spec_bits() | rhs.spec_bits(),
    {
        BufferFlag(self.0 | rhs.0)
    }

    pub fn bits(self) -> (b: GLenum)
        ensures
            b == self.spec_bits(),
    {
        self.0
    }
}

} // verus!

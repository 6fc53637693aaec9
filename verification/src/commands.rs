//! The native calls the library asks for, as plain data.
//!
//! Every verified operation that would touch the driver returns one of
//! these values instead of making the call itself. The unverified shell
//! around the library turns each value into the native call of the same
//! name. A shader's source bytes are not repeated in the command: the
//! shell holds the [`crate::shaders::ShaderSource`] it compiles from.

use vstd::prelude::*;
use crate::types::{GLboolean, GLenum, GLint, GLsizei, GLuint};

verus! {

/// One native call, with the exact arguments the library decided on.
#[derive(Clone, Copy, PartialEq, Eq, Structural, Debug)]
pub enum GlCommand {
    /// Bind `buffer` to the binding point `target`.
    BindBuffer { target: GLenum, buffer: GLuint },
    /// Replace the store of `buffer` with `size` bytes, under usage hint `usage`.
    BufferData { buffer: GLuint, size: usize, usage: GLenum },
    /// Release the buffer handle.
    DeleteBuffer { buffer: GLuint },
    /// Bind the vertex array `array`.
    BindVertexArray { array: GLuint },
    /// Release the vertex array handle.
    DeleteVertexArray { array: GLuint },
    /// Configure vertex attribute `index` to read `size` components of
    /// `component_type` every `stride` bytes, starting `offset` bytes in.
    VertexAttribPointer {
        index: GLuint,
        size: GLint,
        component_type: GLenum,
        normalized: GLboolean,
        stride: GLsizei,
        offset: usize,
    },
    /// Hand the shader its source text.
    UploadShaderSource { shader: GLuint },
    /// Ask the driver to compile the shader.
    CompileShader { shader: GLuint },
    /// Fetch at most `max_len` bytes of the shader's info log.
    GetShaderInfoLog { shader: GLuint, max_len: GLsizei },
    /// Release the shader handle.
    DeleteShader { shader: GLuint },
    /// Register the shader with the program.
    AttachShader { program: GLuint, shader: GLuint },
    /// Unregister the shader from the program.
    DetachShader { program: GLuint, shader: GLuint },
    /// Ask the driver to link the program.
    LinkProgram { program: GLuint },
    /// Fetch at most `max_len` bytes of the program's info log.
    GetProgramInfoLog { program: GLuint, max_len: GLsizei },
    /// Release the program handle.
    DeleteProgram { program: GLuint },
    /// Clear the buffers selected by `mask`.
    Clear { mask: GLenum },
    /// Flush the command queue.
    Flush,
    /// Block until the command queue has drained.
    Finish,
}

} // verus!

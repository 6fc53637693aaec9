//! Plain aliases for the native API's integer types.

use vstd::prelude::*;

verus! {

pub type GLenum = u32;

pub type GLuint = u32;

pub type GLint = i32;

pub type GLboolean = u8;

pub type GLsizei = i32;

/// The native boolean constant for truth.
pub const GL_TRUE: GLboolean = 1;

/// The native boolean constant for falsehood.
pub const GL_FALSE: GLboolean = 0;

/// The native boolean a host-side `bool` is passed as.
pub open spec fn spec_gl_bool(b: bool) -> GLboolean {
    if b {
        GL_TRUE
    } else {
        GL_FALSE
    }
}

pub fn gl_bool(b: bool) -> (r: GLboolean)
    ensures
        r == spec_gl_bool(b),
{
    if b {
        GL_TRUE
    } else {
        GL_FALSE
    }
}

} // verus!

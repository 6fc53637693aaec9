//! The compile and link state machines, the error probe, and vertex arrays.

use keter_gl::buffers::{Buffer, BufferKind, BufferUsageMode};
use keter_gl::commands::GlCommand;
use keter_gl::errors::Error;
use keter_gl::layout::Layout;
use keter_gl::primitives::{ComponentType, PrimitiveTypeData};
use keter_gl::programs::{Program, ProgramError};
use keter_gl::shaders::{Shader, ShaderBuilder, ShaderError, ShaderKind, ShaderSource};
use keter_gl::state::BindingState;
use keter_gl::types::{GL_FALSE, GL_TRUE};
use keter_gl::vao::{VaoError, VertexArrayObject};

#[test]
fn shader_null_handle_is_a_creation_error() {
    let r = Shader::create(0, ShaderKind::Vertex);
    assert!(matches!(r, Err(ShaderError::CreationError)));
}

#[test]
fn shader_source_rejects_interior_nul() {
    assert!(ShaderSource::new(vec![b'a', 0u8, b'b']).is_none());
    let src = ShaderSource::new(b"void main() {}".to_vec()).unwrap();
    assert_eq!(src.bytes(), &b"void main() {}".to_vec());
}

#[test]
fn failed_compile_keeps_the_shader_usable() {
    let mut s = Shader::create(5, ShaderKind::Fragment).unwrap();
    assert_eq!(s.kind(), ShaderKind::Fragment);
    assert!(!s.compiled());

    let src = ShaderSource::new(b"not valid source".to_vec()).unwrap();
    let cmds = s.compile_request(&src);
    assert_eq!(cmds, vec![
        GlCommand::UploadShaderSource { shader: 5 },
        GlCommand::CompileShader { shader: 5 },
    ]);

    // The driver rejects the source: the error carries its log verbatim,
    // the handle stays valid, and the shader stays uncompiled.
    let log = b"0:1(1): error: syntax error".to_vec();
    let r = s.finish_compile(GL_FALSE, log.clone());
    match r {
        Err(ShaderError::CompilationError(l)) => {
            assert!(!l.is_empty());
            assert_eq!(l, log);
        },
        _ => panic!("expected a compilation error"),
    }
    assert!(!s.compiled());
    assert_eq!(s.id(), 5);

    // A later compile of corrected source succeeds on the same instance.
    let r = s.finish_compile(GL_TRUE, Vec::new());
    assert!(r.is_ok());
    assert!(s.compiled());
}

#[test]
fn builder_composes_create_and_compile() {
    let src = ShaderSource::new(b"void main() {}".to_vec()).unwrap();
    let builder = ShaderBuilder::from_source(&src);

    let (cmds, r) = builder.finish(ShaderKind::Vertex, 0, GL_TRUE, Vec::new());
    assert!(cmds.is_empty());
    assert!(matches!(r, Err(ShaderError::CreationError)));

    let (cmds, r) = builder.finish(ShaderKind::Vertex, 8, GL_TRUE, Vec::new());
    assert_eq!(cmds.len(), 2);
    let s = r.unwrap();
    assert_eq!(s.id(), 8);
    assert!(s.compiled());

    let (_, r) = builder.finish(ShaderKind::Vertex, 8, GL_FALSE, b"bad".to_vec());
    assert!(matches!(r, Err(ShaderError::CompilationError(_))));
}

#[test]
fn shader_info_log_request_sizes_the_buffer() {
    let s = Shader::create(5, ShaderKind::Vertex).unwrap();
    let (buff, cmd) = s.info_log_request(3);
    assert_eq!(buff, vec![32u8, 32u8, 32u8, 32u8, 0u8]);
    assert_eq!(cmd, GlCommand::GetShaderInfoLog { shader: 5, max_len: 3 });
}

#[test]
fn program_null_handle_is_a_creation_error() {
    let r = Program::create(0);
    assert!(matches!(r, Err(ProgramError::CreationError)));
}

#[test]
fn failed_link_keeps_the_program_usable() {
    // Linking with no attached shaders: the driver refuses and the error
    // carries its log; the handle stays valid for further attach and link.
    let mut p = Program::create(7).unwrap();
    assert!(p.attached().is_empty());
    assert_eq!(p.link_request(), GlCommand::LinkProgram { program: 7 });

    let log = b"error: no shaders attached".to_vec();
    let r = p.finish_link(GL_FALSE, log.clone());
    match r {
        Err(ProgramError::LinkError(l)) => {
            assert!(!l.is_empty());
            assert_eq!(l, log);
        },
        _ => panic!("expected a link error"),
    }
    assert!(!p.linked());
    assert_eq!(p.id(), 7);

    let s = Shader::create(3, ShaderKind::Vertex).unwrap();
    let cmd = p.attach_shader(&s);
    assert_eq!(cmd, GlCommand::AttachShader { program: 7, shader: 3 });
    let r = p.finish_link(GL_TRUE, Vec::new());
    assert!(r.is_ok());
    assert!(p.linked());
}

#[test]
fn attach_and_detach_register_by_native_id() {
    let mut p = Program::create(2).unwrap();
    let vs = Shader::create(10, ShaderKind::Vertex).unwrap();
    let fs = Shader::create(11, ShaderKind::Fragment).unwrap();
    p.attach_shader(&vs);
    p.attach_shader(&fs);
    assert_eq!(p.attached(), &vec![10u32, 11u32]);

    let cmd = p.detach_shader(&vs);
    assert_eq!(cmd, GlCommand::DetachShader { program: 2, shader: 10 });
    assert_eq!(p.attached(), &vec![11u32]);

    // Detaching a shader that was never attached changes nothing.
    p.detach_shader(&vs);
    assert_eq!(p.attached(), &vec![11u32]);

    assert_eq!(p.destroy(), GlCommand::DeleteProgram { program: 2 });
    assert_eq!(vs.destroy(), GlCommand::DeleteShader { shader: 10 });
}

#[test]
fn error_probe_interprets_drained_codes() {
    assert_eq!(Error::from_raw(gl::NO_ERROR), None);
    assert_eq!(Error::from_raw(gl::INVALID_ENUM), Some(Error::InvalidEnum));
    assert_eq!(Error::from_raw(gl::INVALID_VALUE), Some(Error::InvalidValue));
    assert_eq!(Error::from_raw(gl::INVALID_OPERATION), Some(Error::InvalidOperation));
    assert_eq!(
        Error::from_raw(gl::INVALID_FRAMEBUFFER_OPERATION),
        Some(Error::InvalidFramebufferOperation)
    );
    assert_eq!(Error::from_raw(gl::OUT_OF_MEMORY), Some(Error::OutOfMemory));
    assert_eq!(Error::from_raw(gl::STACK_OVERFLOW), Some(Error::StackOverflow));
    assert_eq!(Error::from_raw(gl::STACK_UNDERFLOW), Some(Error::StackUnderflow));

    let mut buff: Vec<Error> = vec![Error::OutOfMemory];
    let drained = vec![gl::INVALID_ENUM, gl::INVALID_VALUE, gl::NO_ERROR, gl::INVALID_OPERATION];
    Error::get_all(&mut buff, &drained);
    // Draining stops at the first no-error code.
    assert_eq!(buff, vec![Error::OutOfMemory, Error::InvalidEnum, Error::InvalidValue]);
}

#[test]
fn vao_null_handle_is_a_creation_error_and_returns_the_buffer() {
    let mut b = Buffer::create(1, BufferKind::Array).unwrap();
    let layout = Layout::single(PrimitiveTypeData {
        component_type: ComponentType::F32,
        component_count: 3,
        normalized: false,
    });
    b.load_data(&[0u8; 12], layout, BufferUsageMode::StaticDraw);
    match VertexArrayObject::create(0, b) {
        Err((returned, VaoError::CreationError)) => {
            assert_eq!(returned.id(), 1);
        },
        Ok(_) => panic!("the null handle must not create a vertex array"),
    }
}

#[test]
fn vao_bind_binds_buffer_and_applies_layout() {
    // The scenario end to end: an Array buffer loaded with 3 records of a
    // single 3-component float attribute (stride 12), wrapped in a VAO.
    let mut b = Buffer::create(1, BufferKind::Array).unwrap();
    let layout = Layout::single(PrimitiveTypeData {
        component_type: ComponentType::F32,
        component_count: 3,
        normalized: false,
    });
    let verts: [f32; 9] = [0.0, 0.5, 0.0, -0.5, -0.5, 0.0, 0.5, -0.5, 0.0];
    let mut bytes: Vec<u8> = Vec::new();
    for v in verts {
        for byte in v.to_ne_bytes() {
            bytes.push(byte);
        }
    }
    let cmd = b.load_data(&bytes, layout, BufferUsageMode::StaticDraw);
    assert_eq!(cmd, GlCommand::BufferData { buffer: 1, size: 36, usage: gl::STATIC_DRAW });

    let vao = match VertexArrayObject::create(2, b) {
        Ok(v) => v,
        Err(_) => panic!("a non-null handle must create a vertex array"),
    };
    let mut state = BindingState::new();
    let cmds = vao.bind(&mut state);
    // Binding issues exactly: bind the VAO, bind its buffer, one attribute
    // descriptor at offset 0 with component count 3, type float32, stride 12.
    assert_eq!(cmds, vec![
        GlCommand::BindVertexArray { array: 2 },
        GlCommand::BindBuffer { target: gl::ARRAY_BUFFER, buffer: 1 },
        GlCommand::VertexAttribPointer {
            index: 0,
            size: 3,
            component_type: gl::FLOAT,
            normalized: GL_FALSE,
            stride: 12,
            offset: 0,
        },
    ]);
    assert_eq!(state.vertex_array, 2);
    assert_eq!(state.array, 1);

    let once = {
        let mut s = state;
        VertexArrayObject::unbind(&mut s);
        s
    };
    let twice = {
        let mut s = state;
        VertexArrayObject::unbind(&mut s);
        VertexArrayObject::unbind(&mut s);
        s
    };
    assert_eq!(once, twice);
    assert_eq!(once.vertex_array, 0);

    // The ownership cascade: destroying the VAO releases its buffer too.
    let cmds = vao.destroy();
    assert_eq!(cmds, vec![
        GlCommand::DeleteVertexArray { array: 2 },
        GlCommand::DeleteBuffer { buffer: 1 },
    ]);
}

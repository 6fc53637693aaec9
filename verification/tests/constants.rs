//! The native enumeration constants the library's typed sets carry must be
//! exactly the ones the real bindings define.

use keter_gl::GLFlag;
use keter_gl::buffers::{BufferKind, BufferUsageMode};
use keter_gl::errors::Error;
use keter_gl::primitives::ComponentType;
use keter_gl::programs::ProgramParameter;
use keter_gl::shaders::{ShaderKind, ShaderParameter};
use keter_gl::types::{GL_FALSE, GL_TRUE};
use keter_gl::{BufferFlag, COLOR_BUFFER_BIT, DEPTH_BUFFER_BIT, STENCIL_BUFFER_BIT};

#[test]
fn buffer_targets_match_native() {
    assert_eq!(BufferKind::Array.gl_value(), gl::ARRAY_BUFFER);
    assert_eq!(BufferKind::ElementArray.gl_value(), gl::ELEMENT_ARRAY_BUFFER);
    assert_eq!(BufferKind::PixelPack.gl_value(), gl::PIXEL_PACK_BUFFER);
    assert_eq!(BufferKind::PixelUnpack.gl_value(), gl::PIXEL_UNPACK_BUFFER);
    assert_eq!(BufferKind::CopyRead.gl_value(), gl::COPY_READ_BUFFER);
    assert_eq!(BufferKind::CopyWrite.gl_value(), gl::COPY_WRITE_BUFFER);
    assert_eq!(BufferKind::TransformFeedback.gl_value(), gl::TRANSFORM_FEEDBACK_BUFFER);
    assert_eq!(BufferKind::Uniform.gl_value(), gl::UNIFORM_BUFFER);
}

#[test]
fn usage_modes_match_native() {
    assert_eq!(BufferUsageMode::StreamDraw.value(), gl::STREAM_DRAW);
    assert_eq!(BufferUsageMode::StreamRead.value(), gl::STREAM_READ);
    assert_eq!(BufferUsageMode::StreamCopy.value(), gl::STREAM_COPY);
    assert_eq!(BufferUsageMode::StaticDraw.value(), gl::STATIC_DRAW);
    assert_eq!(BufferUsageMode::StaticRead.value(), gl::STATIC_READ);
    assert_eq!(BufferUsageMode::StaticCopy.value(), gl::STATIC_COPY);
    assert_eq!(BufferUsageMode::DynamicDraw.value(), gl::DYNAMIC_DRAW);
    assert_eq!(BufferUsageMode::DynamicRead.value(), gl::DYNAMIC_READ);
    assert_eq!(BufferUsageMode::DynamicCopy.value(), gl::DYNAMIC_COPY);
}

#[test]
fn shader_stages_match_native() {
    assert_eq!(ShaderKind::Vertex.gl_value(), gl::VERTEX_SHADER);
    assert_eq!(ShaderKind::TessEvaluation.gl_value(), gl::TESS_EVALUATION_SHADER);
    assert_eq!(ShaderKind::TessControl.gl_value(), gl::TESS_CONTROL_SHADER);
    assert_eq!(ShaderKind::Fragment.gl_value(), gl::FRAGMENT_SHADER);
    assert_eq!(ShaderKind::Geometry.gl_value(), gl::GEOMETRY_SHADER);
}

#[test]
fn component_types_match_native() {
    assert_eq!(ComponentType::I8.value(), gl::BYTE);
    assert_eq!(ComponentType::U8.value(), gl::UNSIGNED_BYTE);
    assert_eq!(ComponentType::I16.value(), gl::SHORT);
    assert_eq!(ComponentType::U16.value(), gl::UNSIGNED_SHORT);
    assert_eq!(ComponentType::I32.value(), gl::INT);
    assert_eq!(ComponentType::U32.value(), gl::UNSIGNED_INT);
    assert_eq!(ComponentType::F16.value(), gl::HALF_FLOAT);
    assert_eq!(ComponentType::F32.value(), gl::FLOAT);
}

#[test]
fn shader_parameters_match_native() {
    assert_eq!(ShaderParameter::Type.value(), gl::SHADER_TYPE);
    assert_eq!(ShaderParameter::DeleteStatus.value(), gl::DELETE_STATUS);
    assert_eq!(ShaderParameter::CompileStatus.value(), gl::COMPILE_STATUS);
    assert_eq!(ShaderParameter::InfoLogLength.value(), gl::INFO_LOG_LENGTH);
    assert_eq!(ShaderParameter::SourceLength.value(), gl::SHADER_SOURCE_LENGTH);
}

#[test]
fn program_parameters_match_native() {
    assert_eq!(ProgramParameter::DeleteStatus.value(), gl::DELETE_STATUS);
    assert_eq!(ProgramParameter::LinkStatus.value(), gl::LINK_STATUS);
    assert_eq!(ProgramParameter::ValidateStatus.value(), gl::VALIDATE_STATUS);
    assert_eq!(ProgramParameter::InfoLogLength.value(), gl::INFO_LOG_LENGTH);
    assert_eq!(ProgramParameter::AttachedShaders.value(), gl::ATTACHED_SHADERS);
    assert_eq!(
        ProgramParameter::ActiveAtomicCounterBuffers.value(),
        gl::ACTIVE_ATOMIC_COUNTER_BUFFERS
    );
    assert_eq!(ProgramParameter::ActiveAttributes.value(), gl::ACTIVE_ATTRIBUTES);
    assert_eq!(
        ProgramParameter::ActiveAttributeMaxLength.value(),
        gl::ACTIVE_ATTRIBUTE_MAX_LENGTH
    );
    assert_eq!(ProgramParameter::ActiveUniforms.value(), gl::ACTIVE_UNIFORMS);
    assert_eq!(ProgramParameter::ActiveUniformMaxLength.value(), gl::ACTIVE_UNIFORM_MAX_LENGTH);
    assert_eq!(ProgramParameter::ProgramBinaryLength.value(), gl::PROGRAM_BINARY_LENGTH);
    assert_eq!(ProgramParameter::ComputeWorkGroupSize.value(), gl::COMPUTE_WORK_GROUP_SIZE);
    assert_eq!(
        ProgramParameter::TransformFeedbackBufferMode.value(),
        gl::TRANSFORM_FEEDBACK_BUFFER_MODE
    );
    assert_eq!(
        ProgramParameter::TransformFeedbackVaryings.value(),
        gl::TRANSFORM_FEEDBACK_VARYINGS
    );
    assert_eq!(
        ProgramParameter::TransformFeedbackVaryingMaxLength.value(),
        gl::TRANSFORM_FEEDBACK_VARYING_MAX_LENGTH
    );
    assert_eq!(ProgramParameter::GeometryVerticesOut.value(), gl::GEOMETRY_VERTICES_OUT);
    assert_eq!(ProgramParameter::GeometryInputType.value(), gl::GEOMETRY_INPUT_TYPE);
    assert_eq!(ProgramParameter::GeometryOutputType.value(), gl::GEOMETRY_OUTPUT_TYPE);
}

#[test]
fn error_codes_match_native() {
    assert_eq!(Error::InvalidEnum.value(), gl::INVALID_ENUM);
    assert_eq!(Error::InvalidValue.value(), gl::INVALID_VALUE);
    assert_eq!(Error::InvalidOperation.value(), gl::INVALID_OPERATION);
    assert_eq!(
        Error::InvalidFramebufferOperation.value(),
        gl::INVALID_FRAMEBUFFER_OPERATION
    );
    assert_eq!(Error::OutOfMemory.value(), gl::OUT_OF_MEMORY);
    assert_eq!(Error::StackOverflow.value(), gl::STACK_OVERFLOW);
    assert_eq!(Error::StackUnderflow.value(), gl::STACK_UNDERFLOW);
    assert_eq!(keter_gl::errors::NO_ERROR, gl::NO_ERROR);
}

#[test]
fn clear_bits_and_booleans_match_native() {
    assert_eq!(COLOR_BUFFER_BIT, gl::COLOR_BUFFER_BIT);
    assert_eq!(DEPTH_BUFFER_BIT, gl::DEPTH_BUFFER_BIT);
    assert_eq!(STENCIL_BUFFER_BIT, gl::STENCIL_BUFFER_BIT);
    assert_eq!(BufferFlag::color().bits(), gl::COLOR_BUFFER_BIT);
    assert_eq!(BufferFlag::depth().bits(), gl::DEPTH_BUFFER_BIT);
    assert_eq!(BufferFlag::stencil().bits(), gl::STENCIL_BUFFER_BIT);
    assert_eq!(GL_TRUE, gl::TRUE);
    assert_eq!(GL_FALSE, gl::FALSE);
}

//! Component sizes and vertex layout arithmetic.

use keter_gl::commands::GlCommand;
use keter_gl::layout::{LayedOut, Layout, VertexAttribData};
use keter_gl::primitives::{ComponentType, GLi8, GLu8, Primitive, PrimitiveTypeData};
use keter_gl::types::GL_FALSE;
use keter_gl::utility::create_blank_cstring;

#[test]
fn component_sizes() {
    assert_eq!(ComponentType::I8.size(), 1);
    assert_eq!(ComponentType::U8.size(), 1);
    assert_eq!(ComponentType::I16.size(), 2);
    assert_eq!(ComponentType::U16.size(), 2);
    assert_eq!(ComponentType::I32.size(), 4);
    assert_eq!(ComponentType::U32.size(), 4);
    assert_eq!(ComponentType::F16.size(), 2);
    assert_eq!(ComponentType::F32.size(), 4);
}

#[test]
fn attribute_size_is_component_size_times_count() {
    let pos = PrimitiveTypeData {
        component_type: ComponentType::F32,
        component_count: 3,
        normalized: false,
    };
    assert_eq!(pos.size(), 12);
    assert_eq!(pos.component_type(), ComponentType::F32);
    assert_eq!(pos.component_count(), 3);
    assert!(!pos.normalized());

    let color = PrimitiveTypeData {
        component_type: ComponentType::U8,
        component_count: 4,
        normalized: true,
    };
    assert_eq!(color.size(), 4);
}

#[test]
fn packed_layout_strides_and_offsets() {
    let position = PrimitiveTypeData {
        component_type: ComponentType::F32,
        component_count: 3,
        normalized: false,
    };
    let color = PrimitiveTypeData {
        component_type: ComponentType::U8,
        component_count: 4,
        normalized: true,
    };
    let uv = PrimitiveTypeData {
        component_type: ComponentType::I16,
        component_count: 2,
        normalized: false,
    };
    let layout = Layout::packed(vec![position, color, uv]).unwrap();
    // Tightly packed: the stride is the summed attribute sizes,
    // each offset the summed sizes of the attributes before it.
    assert_eq!(layout.stride(), 12 + 4 + 4);
    assert_eq!(layout.attrib_count(), 3);

    let cmds = layout.apply();
    assert_eq!(cmds.len(), 3);
    assert_eq!(
        cmds[0],
        GlCommand::VertexAttribPointer {
            index: 0,
            size: 3,
            component_type: gl::FLOAT,
            normalized: gl::FALSE,
            stride: 20,
            offset: 0,
        }
    );
    assert_eq!(
        cmds[1],
        GlCommand::VertexAttribPointer {
            index: 1,
            size: 4,
            component_type: gl::UNSIGNED_BYTE,
            normalized: gl::TRUE,
            stride: 20,
            offset: 12,
        }
    );
    assert_eq!(
        cmds[2],
        GlCommand::VertexAttribPointer {
            index: 2,
            size: 2,
            component_type: gl::SHORT,
            normalized: gl::FALSE,
            stride: 20,
            offset: 16,
        }
    );
}

#[test]
fn single_attribute_layout() {
    let d = PrimitiveTypeData {
        component_type: ComponentType::F32,
        component_count: 3,
        normalized: false,
    };
    let layout = Layout::single(d);
    assert_eq!(layout.stride(), 12);
    assert_eq!(layout.attrib_count(), 1);
    let cmds = layout.apply();
    assert_eq!(cmds.len(), 1);
    assert_eq!(
        cmds[0],
        GlCommand::VertexAttribPointer {
            index: 0,
            size: 3,
            component_type: gl::FLOAT,
            normalized: GL_FALSE,
            stride: 12,
            offset: 0,
        }
    );
}

#[test]
fn byte_primitives_register_single_byte_layouts() {
    assert_eq!(GLi8::new(-5), GLi8(-5));
    assert_eq!(GLu8::new(7), GLu8(7));
    assert_eq!(
        GLi8::type_data(),
        PrimitiveTypeData {
            component_type: ComponentType::I8,
            component_count: 1,
            normalized: false,
        }
    );
    let li8 = <GLi8 as LayedOut>::layout();
    assert_eq!(li8.stride(), 1);
    assert_eq!(li8.attrib_count(), 1);
    let lu8 = <GLu8 as LayedOut>::layout();
    assert_eq!(lu8.stride(), 1);
    let cmds = lu8.apply();
    assert_eq!(
        cmds[0],
        GlCommand::VertexAttribPointer {
            index: 0,
            size: 1,
            component_type: gl::UNSIGNED_BYTE,
            normalized: GL_FALSE,
            stride: 1,
            offset: 0,
        }
    );
}

#[test]
fn layout_attribute_data_is_plain() {
    let a = VertexAttribData {
        primitive_data: PrimitiveTypeData {
            component_type: ComponentType::U16,
            component_count: 2,
            normalized: false,
        },
        offset: 8,
    };
    assert_eq!(a.offset, 8);
    assert_eq!(a.primitive_data.component_count, 2);
}

#[test]
fn blank_cstring_is_spaces_then_nul() {
    let b = create_blank_cstring(4);
    assert_eq!(b, vec![32u8, 32u8, 32u8, 32u8, 0u8]);
    let empty = create_blank_cstring(0);
    assert_eq!(empty, vec![0u8]);
}

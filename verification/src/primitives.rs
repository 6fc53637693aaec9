//! Component types of vertex attributes and their native constants.

use vstd::prelude::*;
use crate::layout::{LayedOut, Layout, VertexAttribData};
use crate::types::{GLenum, GLsizei};

verus! {

pub const BYTE: GLenum = 0x1400;

pub const UNSIGNED_BYTE: GLenum = 0x1401;

pub const SHORT: GLenum = 0x1402;

pub const UNSIGNED_SHORT: GLenum = 0x1403;

pub const INT: GLenum = 0x1404;

pub const UNSIGNED_INT: GLenum = 0x1405;

pub const FLOAT: GLenum = 0x1406;

pub const HALF_FLOAT: GLenum = 0x140B;

/// A host-side value type that can stand as one vertex attribute.
pub trait Primitive {
    /// The memory shape of one attribute of this type.
    fn type_data() -> PrimitiveTypeData;
}

/// The memory shape of one vertex attribute: its component type, how many
/// components it has, and whether integer components are normalized.
#[derive(Clone, Copy, PartialEq, Eq, Structural, Debug)]
pub struct PrimitiveTypeData {
    pub component_type: ComponentType,
    pub component_count: u8,
    pub normalized: bool,
}

impl PrimitiveTypeData {
    /// An attribute has between one and four components.
    pub open spec fn wf(self) -> bool {
        1 <= self.component_count <= 4
    }

    /// Byte size of the whole attribute.
    pub open spec fn spec_size(self) -> int {
        self.component_type.spec_size() * self.component_count
    }

    pub fn component_type(&self) -> (t: ComponentType)
        ensures
            t == self.component_type,
    {
        self.component_type
    }

    pub fn component_count(&self) -> (c: u8)
        ensures
            c == self.component_count,
    {
        self.component_count
    }

    pub fn normalized(&self) -> (n: bool)
        ensures
            n == self.normalized,
    {
        self.normalized
    }

    pub fn size(&self) -> (s: GLsizei)
        ensures
            s == self.spec_size(),
    {
        self.component_type.size() * self.component_count as GLsizei
    }
}

/// The closed set of component types an attribute may use, each carrying
/// one native enumeration constant and a fixed byte size.
#[derive(Clone, Copy, PartialEq, Eq, Structural, Debug)]
pub enum ComponentType {
    I8,
    U8,
    I16,
    U16,
    I32,
    U32,
    F16,
    F32,
}

impl ComponentType {
    /// Byte size of one component: 1 for the byte types, 2 for the short
    /// and half-float types, 4 for the int and float types.
    pub open spec fn spec_size(self) -> int {
        match self {
            ComponentType::I8 => 1,
            ComponentType::U8 => 1,
            ComponentType::I16 => 2,
            ComponentType::U16 => 2,
            ComponentType::I32 => 4,
            ComponentType::U32 => 4,
            ComponentType::F16 => 2,
            ComponentType::F32 => 4,
        }
    }

    /// The native constant this component type stands for.
    pub open spec fn spec_value(self) -> GLenum {
        match self {
            ComponentType::I8 => BYTE,
            ComponentType::U8 => UNSIGNED_BYTE,
            ComponentType::I16 => SHORT,
            ComponentType::U16 => UNSIGNED_SHORT,
            ComponentType::I32 => INT,
            ComponentType::U32 => UNSIGNED_INT,
            ComponentType::F16 => HALF_FLOAT,
            ComponentType::F32 => FLOAT,
        }
    }

    pub fn size(self) -> (s: GLsizei)
        ensures
            s == self.spec_size(),
    {
        match self {
            ComponentType::I8 => 1,
            ComponentType::U8 => 1,
            ComponentType::I16 => 2,
            ComponentType::U16 => 2,
            ComponentType::I32 => 4,
            ComponentType::U32 => 4,
            ComponentType::F16 => 2,
            ComponentType::F32 => 4,
        }
    }

    pub fn value(self) -> (v: GLenum)
        ensures
            v == self.spec_value(),
    {
        match self {
            ComponentType::I8 => BYTE,
            ComponentType::U8 => UNSIGNED_BYTE,
            ComponentType::I16 => SHORT,
            ComponentType::U16 => UNSIGNED_SHORT,
            ComponentType::I32 => INT,
            ComponentType::U32 => UNSIGNED_INT,
            ComponentType::F16 => HALF_FLOAT,
            ComponentType::F32 => FLOAT,
        }
    }
}

/// A one-byte signed value usable as a single-component attribute.
#[derive(Clone, Copy, PartialEq, Eq, Structural, Debug)]
pub struct GLi8(pub i8);

impl GLi8 {
    pub fn new(val: i8) -> (r: Self)
        ensures
            r.0 == val,
    {
        Self(val)
    }
}

impl Primitive for GLi8 {
    fn type_data() -> (d: PrimitiveTypeData)
        ensures
            d == (PrimitiveTypeData {
                component_type: ComponentType::I8,
                component_count: 1,
                normalized: false,
            }),
    {
        PrimitiveTypeData {
            component_type: ComponentType::I8,
            component_count: 1,
            normalized: false,
        }
    }
}

/// A one-byte unsigned value usable as a single-component attribute.
#[derive(Clone, Copy, PartialEq, Eq, Structural, Debug)]
pub struct GLu8(pub u8);

impl GLu8 {
    pub fn new(val: u8) -> (r: Self)
        ensures
            r.0 == val,
    {
        Self(val)
    }
}

impl Primitive for GLu8 {
    fn type_data() -> (d: PrimitiveTypeData)
        ensures
            d == (PrimitiveTypeData {
                component_type: ComponentType::U8,
                component_count: 1,
                normalized: false,
            }),
    {
        PrimitiveTypeData {
            component_type: ComponentType::U8,
            component_count: 1,
            normalized: false,
        }
    }
}

impl LayedOut for GLi8 {
    fn layout() -> (l: Layout)
        ensures
            l.wf(),
            l.is_packed(),
            l.spec_stride() == 1,
            l.spec_attribs() == seq![
                VertexAttribData {
                    primitive_data: PrimitiveTypeData {
                        component_type: ComponentType::I8,
                        component_count: 1,
                        normalized: false,
                    },
                    offset: 0,
                },
            ],
    {
        let l = Layout::single(GLi8::type_data());
        proof {
            assert(l.spec_attribs() =~= seq![
                VertexAttribData {
                    primitive_data: PrimitiveTypeData {
                        component_type: ComponentType::I8,
                        component_count: 1,
                        normalized: false,
                    },
                    offset: 0,
                },
            ]);
        }
        l
    }
}

impl LayedOut for GLu8 {
    fn layout() -> (l: Layout)
        ensures
            l.wf(),
            l.is_packed(),
            l.spec_stride() == 1,
            l.spec_attribs() == seq![
                VertexAttribData {
                    primitive_data: PrimitiveTypeData {
                        component_type: ComponentType::U8,
                        component_count: 1,
                        normalized: false,
                    },
                    offset: 0,
                },
            ],
    {
        let l = Layout::single(GLu8::type_data());
        proof {
            assert(l.spec_attribs() =~= seq![
                VertexAttribData {
                    primitive_data: PrimitiveTypeData {
                        component_type: ComponentType::U8,
                        component_count: 1,
                        normalized: false,
                    },
                    offset: 0,
                },
            ]);
        }
        l
    }
}

} // verus!

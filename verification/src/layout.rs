//! Vertex layout descriptors: how one host-side record maps onto attribute
//! memory.
//!
//! A [`Layout`] lists, per attribute location, the attribute's memory shape
//! and byte offset inside the record, together with the record's stride.
//! [`Layout::apply`] turns the descriptor into the attribute-pointer
//! configuration calls that binding a vertex array issues.

use vstd::prelude::*;
use crate::commands::GlCommand;
use crate::primitives::PrimitiveTypeData;
use crate::types::{spec_gl_bool, gl_bool, GLint, GLsizei, GLuint};

verus! {

/// The byte size of a record holding exactly the given attributes, one
/// after the other with no padding.
pub open spec fn packed_size(attribs: Seq<PrimitiveTypeData>) -> int
    decreases attribs.len(),
{
    if attribs.len() == 0 {
        0
    } else {
        packed_size(attribs.drop_last()) + attribs.last().spec_size()
    }
}

/// An attribute of this size is at least one byte and at most sixteen.
pub proof fn lemma_attrib_size_bounds(d: PrimitiveTypeData)
    requires
        d.wf(),
    ensures
        1 <= d.spec_size() <= 16,
{
    assert(1 <= d.component_type.spec_size() <= 4);
    assert(1 <= d.component_type.spec_size() * d.component_count <= 16) by (nonlinear_arith)
        requires
            1 <= d.component_type.spec_size() <= 4,
            1 <= d.component_count <= 4,
    ;
}

/// One more attribute adds exactly its own byte size to the packed size.
pub proof fn lemma_packed_size_take_succ(s: Seq<PrimitiveTypeData>, i: int)
    requires
        0 <= i < s.len(),
    ensures
        packed_size(s.take(i + 1)) == packed_size(s.take(i)) + s[i].spec_size(),
{
    assert(s.take(i + 1).drop_last() =~= s.take(i));
    assert(s.take(i + 1).last() == s[i]);
}

/// The packed size of a prefix never shrinks as the prefix grows.
pub proof fn lemma_packed_size_mono(s: Seq<PrimitiveTypeData>, i: int, j: int)
    requires
        0 <= i <= j <= s.len(),
        forall|k: int| 0 <= k < s.len() ==> (#[trigger] s[k]).wf(),
    ensures
        packed_size(s.take(i)) <= packed_size(s.take(j)),
    decreases j - i,
{
    if i < j {
        lemma_packed_size_mono(s, i, j - 1);
        lemma_packed_size_take_succ(s, j - 1);
        lemma_attrib_size_bounds(s[j - 1]);
    }
}

/// One vertex attribute's memory shape together with its byte offset
/// inside the record.
#[derive(Clone, Copy, PartialEq, Eq, Structural, Debug)]
pub struct VertexAttribData {
    pub primitive_data: PrimitiveTypeData,
    pub offset: usize,
}

/// A host-side record type that can be uploaded as vertex data registers
/// its layout once through this trait.
pub trait LayedOut {
    /// The per-record memory layout, attribute index `i` standing for
    /// attribute location `i`.
    fn layout() -> Layout;
}

/// The full per-vertex memory layout: the record's stride and the ordered
/// attribute descriptors, index standing for attribute location.
#[derive(Clone, PartialEq, Eq, Debug)]
pub struct Layout {
    stride: GLsizei,
    attrib_data: Vec<VertexAttribData>,
}

impl Layout {
    /// The record's stride: the byte step from one record to the next.
    pub closed spec fn spec_stride(self) -> GLsizei {
        self.stride
    }

    /// The ordered attribute descriptors.
    pub closed spec fn spec_attribs(self) -> Seq<VertexAttribData> {
        self.attrib_data@
    }

    /// The ordered attribute shapes, offsets stripped.
    pub open spec fn spec_types(self) -> Seq<PrimitiveTypeData> {
        self.spec_attribs().map(|i: int, a: VertexAttribData| a.primitive_data)
    }

    /// Every attribute is well formed and lies inside the stride.
    pub open spec fn wf(self) -> bool {
        &&& 0 <= self.spec_stride()
        &&& self.spec_attribs().len() <= u32::MAX
        &&& forall|i: int|
            0 <= i < self.spec_attribs().len() ==> {
                &&& (#[trigger] self.spec_attribs()[i]).primitive_data.wf()
                &&& self.spec_attribs()[i].offset + self.spec_attribs()[i].primitive_data.spec_size()
                    <= self.spec_stride()
            }
    }

    /// The layout is tightly packed: the stride is exactly the summed
    /// attribute sizes and each attribute starts where the one before ends.
    pub open spec fn is_packed(self) -> bool {
        &&& self.spec_stride() == packed_size(self.spec_types())
        &&& forall|i: int|
            0 <= i < self.spec_attribs().len() ==> (#[trigger] self.spec_attribs()[i]).offset
                == packed_size(self.spec_types().take(i))
    }

    /// The attribute-pointer configuration calls that applying this layout
    /// issues: one per attribute, at its location index.
    pub open spec fn spec_apply(self) -> Seq<GlCommand> {
        Seq::new(
            self.spec_attribs().len(),
            |i: int|
                GlCommand::VertexAttribPointer {
                    index: i as GLuint,
                    size: self.spec_attribs()[i].primitive_data.component_count as GLint,
                    component_type: self.spec_attribs()[i].primitive_data.component_type.spec_value(),
                    normalized: spec_gl_bool(self.spec_attribs()[i].primitive_data.normalized),
                    stride: self.spec_stride(),
                    offset: self.spec_attribs()[i].offset,
                },
        )
    }

    pub fn stride(&self) -> (s: GLsizei)
        ensures
            s == self.spec_stride(),
    {
        self.stride
    }

    pub fn attrib_count(&self) -> (n: usize)
        ensures
            n == self.spec_attribs().len(),
    {
        self.attrib_data.len()
    }

    /// A layout of a single attribute at offset zero, the stride exactly
    /// the attribute's byte size.
    pub fn single(d: PrimitiveTypeData) -> (l: Layout)
        requires
            d.wf(),
        ensures
            l.wf(),
            l.is_packed(),
            l.spec_attribs().len() == 1,
            l.spec_attribs()[0] == (VertexAttribData { primitive_data: d, offset: 0 }),
            l.spec_stride() == d.spec_size(),
    {
        proof {
            lemma_attrib_size_bounds(d);
        }
        let stride = d.size();
        let mut attrib_data: Vec<VertexAttribData> = Vec::new();
        attrib_data.push(VertexAttribData { primitive_data: d, offset: 0 });
        let l = Layout { stride, attrib_data };
        proof {
            assert(l.spec_types() =~= seq![d]);
            assert(seq![d].drop_last() =~= Seq::<PrimitiveTypeData>::empty());
            assert(packed_size(Seq::<PrimitiveTypeData>::empty()) == 0);
            assert(packed_size(seq![d]) == d.spec_size());
            assert(l.spec_types().take(0) =~= Seq::<PrimitiveTypeData>::empty());
        }
        l
    }

    /// The tightly packed layout over the given attributes: offsets are the
    /// running sums of the sizes, the stride their total. Fails only when
    /// that total does not fit the native size type.
    pub fn packed(attribs: Vec<PrimitiveTypeData>) -> (r: Option<Layout>)
        requires
            forall|i: int| 0 <= i < attribs@.len() ==> (#[trigger] attribs@[i]).wf(),
            attribs@.len() <= u32::MAX,
        ensures
            match r {
                Some(l) => {
                    &&& l.wf()
                    &&& l.is_packed()
                    &&& l.spec_types() == attribs@
                    &&& l.spec_stride() == packed_size(attribs@)
                },
                None => packed_size(attribs@) > GLsizei::MAX,
            },
    {
        let mut attrib_data: Vec<VertexAttribData> = Vec::new();
        let mut offset: usize = 0;
        let mut i: usize = 0;
        while i < attribs.len()
            invariant
                i <= attribs@.len(),
                attribs@.len() <= u32::MAX,
                forall|k: int| 0 <= k < attribs@.len() ==> (#[trigger] attribs@[k]).wf(),
                attrib_data@.len() == i,
                offset == packed_size(attribs@.take(i as int)),
                offset <= i32::MAX,
                forall|j: int|
                    0 <= j < i ==> {
                        &&& (#[trigger] attrib_data@[j]).primitive_data == attribs@[j]
                        &&& attrib_data@[j].offset == packed_size(attribs@.take(j))
                    },
            decreases attribs@.len() - i,
        {
            let a = attribs[i];
            let sz = a.size();
            proof {
                lemma_attrib_size_bounds(a);
                lemma_packed_size_take_succ(attribs@, i as int);
            }
            if offset > (i32::MAX as usize) - (sz as usize) {
                proof {
                    lemma_packed_size_mono(attribs@, i as int + 1, attribs@.len() as int);
                    assert(attribs@.take(attribs@.len() as int) =~= attribs@);
                }
                return None;
            }
            attrib_data.push(VertexAttribData { primitive_data: a, offset });
            offset = offset + sz as usize;
            i = i + 1;
        }
        let l = Layout { stride: offset as GLsizei, attrib_data };
        proof {
            assert(attribs@.take(attribs@.len() as int) =~= attribs@);
            assert(l.spec_types() =~= attribs@);
            assert forall|j: int| 0 <= j < l.spec_attribs().len() implies {
                &&& (#[trigger] l.spec_attribs()[j]).primitive_data.wf()
                &&& l.spec_attribs()[j].offset + l.spec_attribs()[j].primitive_data.spec_size()
                    <= l.spec_stride()
            } by {
                lemma_packed_size_take_succ(attribs@, j);
                lemma_packed_size_mono(attribs@, j + 1, attribs@.len() as int);
            }
        }
        Some(l)
    }

    /// Issues one attribute-pointer configuration call per descriptor,
    /// passing the location index, component count, component native type,
    /// normalization flag, the shared stride, and the byte offset.
    pub fn apply(&self) -> (cmds: Vec<GlCommand>)
        requires
            self.wf(),
        ensures
            cmds@ == self.spec_apply(),
    {
        let mut cmds: Vec<GlCommand> = Vec::new();
        let mut i: usize = 0;
        while i < self.attrib_data.len()
            invariant
                self.wf(),
                i <= self.spec_attribs().len(),
                cmds@.len() == i,
                forall|j: int| 0 <= j < i ==> #[trigger] cmds@[j] == self.spec_apply()[j],
            decreases self.spec_attribs().len() - i,
        {
            let a = self.attrib_data[i];
            cmds.push(GlCommand::VertexAttribPointer {
                index: i as GLuint,
                size: a.primitive_data.component_count as GLint,
                component_type: a.primitive_data.component_type.value(),
                normalized: gl_bool(a.primitive_data.normalized),
                stride: self.stride,
                offset: a.offset,
            });
            i = i + 1;
        }
        proof {
            assert(cmds@ =~= self.spec_apply());
        }
        cmds
    }
}

/// For a tightly packed layout, the stride equals the attribute byte sizes
/// summed over the whole record, and the configuration call for attribute
/// `i` carries an offset equal to the byte sizes of attributes `0..i`
/// summed: each attribute starts right after the ones before it.
pub proof fn law_packed_apply(l: Layout)
    requires
        l.wf(),
        l.is_packed(),
    ensures
        l.spec_stride() == packed_size(l.spec_types()),
        forall|i: int|
            0 <= i < l.spec_attribs().len() ==> #[trigger] l.spec_apply()[i]
                == (GlCommand::VertexAttribPointer {
                index: i as GLuint,
                size: l.spec_attribs()[i].primitive_data.component_count as GLint,
                component_type: l.spec_attribs()[i].primitive_data.component_type.spec_value(),
                normalized: spec_gl_bool(l.spec_attribs()[i].primitive_data.normalized),
                stride: packed_size(l.spec_types()) as GLsizei,
                offset: packed_size(l.spec_types().take(i)) as usize,
            }),
{
    assert forall|i: int| 0 <= i < l.spec_attribs().len() implies #[trigger] l.spec_apply()[i]
        == (GlCommand::VertexAttribPointer {
        index: i as GLuint,
        size: l.spec_attribs()[i].primitive_data.component_count as GLint,
        component_type: l.spec_attribs()[i].primitive_data.component_type.spec_value(),
        normalized: spec_gl_bool(l.spec_attribs()[i].primitive_data.normalized),
        stride: packed_size(l.spec_types()) as GLsizei,
        offset: packed_size(l.spec_types().take(i)) as usize,
    }) by {
        assert(l.spec_attribs()[i].offset == packed_size(l.spec_types().take(i)));
        assert(l.spec_stride() == packed_size(l.spec_types()) as GLsizei);
    }
}

} // verus!

use vstd::prelude::*;

verus! {

/// The scalar type that the components of an attribute are read as.
#[derive(Clone, Copy, Debug, PartialEq, Eq, Structural)]
pub enum ScalarKind {
    Float,
    Int,
}

/// The type of one vertex attribute, as the vertex shader declares it.
#[derive(Clone, Copy, Debug, PartialEq, Eq, Structural)]
pub enum VertexAttributeType {
    Float,
    Float2,
    Float3,
    Float4,
    Int,
}

impl VertexAttributeType {
    /// Size in bytes of one attribute of this type.
    pub open spec fn spec_size(self) -> u32 {
        match self {
            VertexAttributeType::Float => 4,
            VertexAttributeType::Float2 => 8,
            VertexAttributeType::Float3 => 12,
            VertexAttributeType::Float4 => 16,
            VertexAttributeType::Int => 4,
        }
    }

    /// Number of scalar components of this type.
    pub open spec fn spec_amount(self) -> u32 {
        match self {
            VertexAttributeType::Float => 1,
            VertexAttributeType::Float2 => 2,
            VertexAttributeType::Float3 => 3,
            VertexAttributeType::Float4 => 4,
            VertexAttributeType::Int => 1,
        }
    }

    pub open spec fn spec_scalar_kind(self) -> ScalarKind {
        match self {
            VertexAttributeType::Int => ScalarKind::Int,
            _ => ScalarKind::Float,
        }
    }

    #[verifier::when_used_as_spec(spec_size)]
    pub fn size(self) -> (r: u32)
        ensures
            r == self.spec_size(),
    {
        match self {
            VertexAttributeType::Float => 4,
            VertexAttributeType::Float2 => 8,
            VertexAttributeType::Float3 => 12,
            VertexAttributeType::Float4 => 16,
            VertexAttributeType::Int => 4,
        }
    }

    #[verifier::when_used_as_spec(spec_amount)]
    pub fn amount(self) -> (r: u32)
        ensures
            r == self.spec_amount(),
    {
        match self {
            VertexAttributeType::Float => 1,
            VertexAttributeType::Float2 => 2,
            VertexAttributeType::Float3 => 3,
            VertexAttributeType::Float4 => 4,
            VertexAttributeType::Int => 1,
        }
    }

    #[verifier::when_used_as_spec(spec_scalar_kind)]
    pub fn scalar_kind(self) -> (r: ScalarKind)
        ensures
            r == self.spec_scalar_kind(),
    {
        match self {
            VertexAttributeType::Int => ScalarKind::Int,
            _ => ScalarKind::Float,
        }
    }
}

/// One named input of a vertex shader.
#[derive(Clone, Debug)]
pub struct VertexAtribute {
    pub name: String,
    pub datatype: VertexAttributeType,
    pub interpolate: bool,
}

/// Byte stride of a layout: the sum of the sizes of its attributes.
pub open spec fn layout_stride(layout: Seq<VertexAtribute>) -> nat
    decreases layout.len(),
{
    if layout.len() == 0 {
        0
    } else {
        layout_stride(layout.drop_last()) + layout.last().datatype.spec_size() as nat
    }
}

/// Byte offset of attribute `i`: the sum of the sizes of the attributes before it.
pub open spec fn attribute_offset(layout: Seq<VertexAtribute>, i: int) -> nat {
    layout_stride(layout.take(i))
}

/// How the backend is told to read one attribute out of the vertex bytes.
#[derive(Clone, Copy, Debug, PartialEq, Eq, Structural)]
pub struct AttributeBinding {
    pub location: u32,
    pub components: u32,
    pub kind: ScalarKind,
    pub stride: u32,
    pub offset: u32,
}

/// The binding of attribute `i` of `layout`: bound at its position, read with
/// the layout's stride from its running offset.
pub open spec fn binding_of(layout: Seq<VertexAtribute>, i: int) -> AttributeBinding {
    AttributeBinding {
        location: i as u32,
        components: layout[i].datatype.spec_amount(),
        kind: layout[i].datatype.spec_scalar_kind(),
        stride: layout_stride(layout) as u32,
        offset: attribute_offset(layout, i) as u32,
    }
}

/// The largest stride a backend accepts (a signed 32-bit size).
pub const MAX_STRIDE: u32 = 0x7fff_ffff;

pub proof fn lemma_stride_bounds(layout: Seq<VertexAtribute>)
    ensures
        layout_stride(layout) >= 4 * layout.len(),
        layout_stride(layout) <= 16 * layout.len(),
    decreases layout.len(),
{
    if layout.len() > 0 {
        lemma_stride_bounds(layout.drop_last());
    }
}

/// The running sum over a prefix never exceeds the sum over the whole layout.
pub proof fn lemma_prefix_stride(layout: Seq<VertexAtribute>, i: int)
    requires
        0 <= i <= layout.len(),
    ensures
        layout_stride(layout.take(i)) <= layout_stride(layout),
        i < layout.len() ==> layout_stride(layout.take(i + 1)) == layout_stride(layout.take(i))
            + layout[i].datatype.spec_size() as nat,
    decreases layout.len() - i,
{
    if i < layout.len() {
        assert(layout.take(i + 1).drop_last() =~= layout.take(i));
        lemma_prefix_stride(layout, i + 1);
    } else {
        assert(layout.take(i) =~= layout);
    }
}

/// Sums the sizes of the attributes of `layout`.
pub fn stride_of(layout: &[VertexAtribute]) -> (r: u32)
    requires
        layout_stride(layout@) <= u32::MAX,
    ensures
        r == layout_stride(layout@),
{
    let mut total: u32 = 0;
    let mut i: usize = 0;
    while i < layout.len()
        invariant
            0 <= i <= layout@.len(),
            layout_stride(layout@) <= u32::MAX,
            total == layout_stride(layout@.take(i as int)),
        decreases layout@.len() - i,
    {
        proof {
            lemma_prefix_stride(layout@, i as int);
            lemma_prefix_stride(layout@, i as int + 1);
        }
        total = total + layout[i].datatype.size();
        i = i + 1;
    }
    proof {
        assert(layout@.take(i as int) =~= layout@);
    }
    total
}

/// Walks `layout` in order and gives each attribute its binding: location
/// equal to its position, the layout's stride, and the running offset.
pub fn attribute_bindings(layout: &[VertexAtribute]) -> (r: Vec<AttributeBinding>)
    requires
        layout_stride(layout@) <= MAX_STRIDE,
    ensures
        r@.len() == layout@.len(),
        forall|i: int| 0 <= i < layout@.len() ==> #[trigger] r@[i] == binding_of(layout@, i),
{
    let stride = stride_of(layout);
    let mut out: Vec<AttributeBinding> = Vec::new();
    let mut offset: u32 = 0;
    let mut i: usize = 0;
    proof {
        lemma_stride_bounds(layout@);
    }
    while i < layout.len()
        invariant
            0 <= i <= layout@.len(),
            layout_stride(layout@) <= MAX_STRIDE,
            layout@.len() * 4 <= layout_stride(layout@),
            stride == layout_stride(layout@),
            offset == attribute_offset(layout@, i as int),
            out@.len() == i,
            forall|j: int| 0 <= j < i ==> #[trigger] out@[j] == binding_of(layout@, j),
        decreases layout@.len() - i,
    {
        proof {
            lemma_prefix_stride(layout@, i as int);
            lemma_prefix_stride(layout@, i as int + 1);
        }
        let datatype = layout[i].datatype;
        let binding = AttributeBinding {
            location: i as u32,
            components: datatype.amount(),
            kind: datatype.scalar_kind(),
            stride,
            offset,
        };
        out.push(binding);
        offset = offset + datatype.size();
        i = i + 1;
    }
    out
}

} // verus!

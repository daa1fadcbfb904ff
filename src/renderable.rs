use vstd::prelude::*;
use crate::buffers::{layout_ops, Ibo, Vao, Vbo};
use crate::gpu::{lemma_insert_remove, BufferTarget, Device, Gpu, GpuCommand, GpuError, GpuObject, GpuOp, ObjectKind};
use crate::state::{bound_vertex_array, draws, draws_of, is_vertex_array_binding, last_where, lemma_last_where_append};
use crate::vertexlayout::{layout_stride, VertexAtribute, MAX_STRIDE};

verus! {

/// The largest index count a draw call takes (a signed 32-bit count).
pub const MAX_INDICES: usize = 0x7fff_ffff;

/// The log entries of building a mesh in vertex array `vao` from index
/// buffer `ibo` and vertex buffer `vbo`.
pub open spec fn mesh_setup_ops(
    vao: u32,
    ibo: u32,
    vbo: u32,
    vertices: Seq<u8>,
    indices: Seq<u32>,
    layout: Seq<VertexAtribute>,
) -> Seq<GpuOp> {
    seq![
        GpuOp::Create(GpuObject { kind: ObjectKind::VertexArray, name: vao }),
        GpuOp::Command(GpuCommand::BindVertexArray(vao)),
        GpuOp::Create(GpuObject { kind: ObjectKind::Buffer, name: ibo }),
        GpuOp::Command(GpuCommand::BindBuffer { target: BufferTarget::Index, name: ibo }),
        GpuOp::IndexData(indices),
        GpuOp::Create(GpuObject { kind: ObjectKind::Buffer, name: vbo }),
        GpuOp::Command(GpuCommand::BindBuffer { target: BufferTarget::Vertex, name: vbo }),
        GpuOp::VertexData(vertices),
        GpuOp::Command(GpuCommand::BindVertexArray(vao)),
    ] + layout_ops(layout)
}

/// The log of building a mesh that stopped because the backend gave no
/// object: at `step` 0 no vertex array, at 1 no index buffer, at 2 no vertex
/// buffer. What was made before is released, newest first.
pub open spec fn mesh_abort_ops(step: int, vao: u32, ibo: u32, indices: Seq<u32>) -> Seq<GpuOp> {
    let va = GpuObject { kind: ObjectKind::VertexArray, name: vao };
    let ib = GpuObject { kind: ObjectKind::Buffer, name: ibo };
    if step == 0 {
        seq![GpuOp::CreateFailed(ObjectKind::VertexArray)]
    } else if step == 1 {
        seq![
            GpuOp::Create(va),
            GpuOp::Command(GpuCommand::BindVertexArray(vao)),
            GpuOp::CreateFailed(ObjectKind::Buffer),
            GpuOp::Delete(va),
        ]
    } else {
        seq![
            GpuOp::Create(va),
            GpuOp::Command(GpuCommand::BindVertexArray(vao)),
            GpuOp::Create(ib),
            GpuOp::Command(GpuCommand::BindBuffer { target: BufferTarget::Index, name: ibo }),
            GpuOp::IndexData(indices),
            GpuOp::CreateFailed(ObjectKind::Buffer),
            GpuOp::Delete(ib),
            GpuOp::Delete(va),
        ]
    }
}

/// The error of a mesh build that stopped at `step`.
pub open spec fn mesh_abort_error(step: int) -> GpuError {
    if step == 0 {
        GpuError::NullHandle(ObjectKind::VertexArray)
    } else {
        GpuError::NullHandle(ObjectKind::Buffer)
    }
}

/// The build stopped at `step` with error `e` and log `ops` after `before`.
pub open spec fn mesh_aborted(before: Seq<GpuOp>, ops: Seq<GpuOp>, e: GpuError, indices: Seq<u32>) -> bool {
    exists|step: int, vao: u32, ibo: u32|
        0 <= step < 3 && e == mesh_abort_error(step) && ops == before + #[trigger] mesh_abort_ops(
            step,
            vao,
            ibo,
            indices,
        )
}

/// The log entries of drawing `count` indices from vertex array `vao`.
pub open spec fn draw_ops(vao: u32, count: u32) -> Seq<GpuOp> {
    seq![
        GpuOp::Command(GpuCommand::BindVertexArray(vao)),
        GpuOp::Command(GpuCommand::DrawIndexed(count)),
    ]
}

/// Drawing a mesh issues exactly one draw call, of exactly its index count,
/// and leaves its vertex array bound; drawing it again leaves the bound state
/// as the first draw left it and again draws exactly that count.
pub proof fn lemma_draw_repeatable(prior: Seq<GpuOp>, vao: u32, count: u32)
    ensures
        draws(draw_ops(vao, count)) == 1,
        draws_of(draw_ops(vao, count), count) == 1,
        bound_vertex_array(prior + draw_ops(vao, count)) == vao,
        bound_vertex_array(prior + draw_ops(vao, count) + draw_ops(vao, count)) == vao,
        draws_of(draw_ops(vao, count) + draw_ops(vao, count), count) == 2,
{
    let d = draw_ops(vao, count);
    let is_draw = |op: GpuOp| op matches GpuOp::Command(GpuCommand::DrawIndexed(_));
    let is_this_draw = |op: GpuOp| op == GpuOp::Command(GpuCommand::DrawIndexed(count));
    reveal_with_fuel(Seq::filter, 3);
    assert(d.drop_last() =~= seq![GpuOp::Command(GpuCommand::BindVertexArray(vao))]);
    assert(d.drop_last().drop_last() =~= Seq::<GpuOp>::empty());
    assert(d.filter(is_draw) =~= seq![GpuOp::Command(GpuCommand::DrawIndexed(count))]);
    assert(d.filter(is_this_draw) =~= seq![GpuOp::Command(GpuCommand::DrawIndexed(count))]);
    Seq::filter_distributes_over_add(d, d, is_this_draw);
    let f = |op: GpuOp| is_vertex_array_binding(op);
    reveal_with_fuel(last_where, 3);
    assert(last_where(d, f) == Some(GpuOp::Command(GpuCommand::BindVertexArray(vao))));
    lemma_last_where_append(prior, d, f);
    lemma_last_where_append(prior + d, d, f);
}

/// An immutable mesh resident on the backend: a vertex buffer, an index
/// buffer and a vertex array configured with a layout, built once and drawn
/// any number of times.
pub struct Renderable {
    vao: Vao,
    vbo: Vbo,
    ibo: Ibo,
    indexcount: u32,
}

impl Renderable {
    pub closed spec fn vertex_array(&self) -> u32 {
        self.vao.name()
    }

    pub closed spec fn objects(&self) -> (GpuObject, GpuObject, GpuObject) {
        (self.vao.object(), self.ibo.object(), self.vbo.object())
    }

    pub closed spec fn index_count(&self) -> u32 {
        self.indexcount
    }

    /// Uploads `indices` and `vertices` once and configures the vertex array
    /// with `layout`; on an error nothing made on the way stays allocated.
    pub fn new<D: Device>(
        gpu: &mut Gpu<D>,
        vertices: &[u8],
        indices: &[u32],
        vertex_layout: &[VertexAtribute],
    ) -> (r: Result<Renderable, GpuError>)
        requires
            layout_stride(vertex_layout@) <= MAX_STRIDE,
            indices@.len() <= MAX_INDICES,
        ensures
            match r {
                Ok(m) => {
                    &&& m.index_count() == indices@.len()
                    &&& m.vertex_array() != 0
                    &&& m.objects().0.name == m.vertex_array()
                    &&& final(gpu).live() == old(gpu).live().insert(m.objects().0).insert(
                        m.objects().1,
                    ).insert(m.objects().2)
                    &&& final(gpu).ops() == old(gpu).ops() + mesh_setup_ops(
                        m.vertex_array(),
                        m.objects().1.name,
                        m.objects().2.name,
                        vertices@,
                        indices@,
                        vertex_layout@,
                    ) + seq![GpuOp::Command(GpuCommand::BindVertexArray(0))]
                },
                Err(e) => final(gpu).live() == old(gpu).live() && mesh_aborted(
                    old(gpu).ops(),
                    final(gpu).ops(),
                    e,
                    indices@,
                ),
            },
    {
        let ghost live0 = gpu.live();
        let ghost ops0 = gpu.ops();
        let vao = match Vao::new(gpu) {
            Ok(v) => v,
            Err(e) => {
                assert(gpu.ops() =~= ops0 + mesh_abort_ops(0, 0, 0, indices@));
                return Err(e);
            },
        };
        let ghost live1 = gpu.live();
        proof {
            lemma_insert_remove(live0, vao.object());
        }
        vao.bind(gpu);
        let mut ibo = match Ibo::new(gpu) {
            Ok(b) => b,
            Err(e) => {
                vao.release(gpu);
                assert(gpu.ops() =~= ops0 + mesh_abort_ops(1, vao.name(), 0, indices@));
                return Err(e);
            },
        };
        let ghost live2 = gpu.live();
        proof {
            broadcast use vstd::multiset::group_multiset_axioms;

            assert(live1.insert(ibo.object()).remove(vao.object()).remove(ibo.object()) =~= live0);
        }
        ibo.data(gpu, indices);
        let mut vbo = match Vbo::new(gpu) {
            Ok(b) => b,
            Err(e) => {
                ibo.release(gpu);
                vao.release(gpu);
                assert(gpu.ops() =~= ops0 + mesh_abort_ops(2, vao.name(), ibo.name(), indices@));
                return Err(e);
            },
        };
        vbo.data(gpu, vertices);
        vao.set_vertex_layout(gpu, vertex_layout);
        Vao::unbind(gpu);
        let m = Renderable { vao, vbo, ibo, indexcount: indices.len() as u32 };
        proof {
            assert(gpu.ops() =~= ops0 + mesh_setup_ops(
                vao.name(),
                ibo.name(),
                vbo.name(),
                vertices@,
                indices@,
                vertex_layout@,
            ) + seq![GpuOp::Command(GpuCommand::BindVertexArray(0))]);
        }
        Ok(m)
    }

    pub fn bind<D: Device>(&self, gpu: &mut Gpu<D>)
        ensures
            final(gpu).live() == old(gpu).live(),
            final(gpu).ops() == old(gpu).ops().push(
                GpuOp::Command(GpuCommand::BindVertexArray(self.vertex_array())),
            ),
    {
        self.vao.bind(gpu);
    }

    /// Rebinds the vertex array and draws the stored number of indices.
    pub fn draw<D: Device>(&self, gpu: &mut Gpu<D>)
        ensures
            final(gpu).live() == old(gpu).live(),
            final(gpu).ops() == old(gpu).ops() + draw_ops(self.vertex_array(), self.index_count()),
    {
        self.bind(gpu);
        gpu.submit(GpuCommand::DrawIndexed(self.indexcount));
        proof {
            assert(gpu.ops() =~= old(gpu).ops() + draw_ops(self.vertex_array(), self.index_count()));
        }
    }

    pub fn index_count_of(&self) -> (r: u32)
        ensures
            r == self.index_count(),
    {
        self.indexcount
    }

    pub fn vertex_array_id(&self) -> (r: u32)
        ensures
            r == self.vertex_array(),
    {
        self.vao.id()
    }

    /// Releases the index buffer, the vertex buffer and the vertex array.
    pub fn release<D: Device>(self, gpu: &mut Gpu<D>)
        ensures
            final(gpu).live() == old(gpu).live().remove(self.objects().1).remove(self.objects().2).remove(
                self.objects().0,
            ),
            final(gpu).ops() == old(gpu).ops() + seq![
                GpuOp::Delete(self.objects().1),
                GpuOp::Delete(self.objects().2),
                GpuOp::Delete(self.objects().0),
            ],
    {
        self.ibo.release(gpu);
        self.vbo.release(gpu);
        self.vao.release(gpu);
        proof {
            assert(gpu.ops() =~= old(gpu).ops() + seq![
                GpuOp::Delete(self.objects().1),
                GpuOp::Delete(self.objects().2),
                GpuOp::Delete(self.objects().0),
            ]);
        }
    }
}

} // verus!

use vstd::prelude::*;
use crate::buffers::{Ibo, Vao, Vbo};
use crate::framebuffer::FrameBuffer;
use crate::gpu::{lemma_insert_remove, Color, Device, Gpu, GpuCommand, GpuError, GpuObject, GpuOp};
use crate::renderable::{draw_ops, mesh_abort_ops, mesh_aborted, mesh_setup_ops, Renderable, MAX_INDICES};
use crate::shader::ShaderProgram;
use crate::state::{
    current_clear_color, current_framebuffer, current_viewport, is_clear_color,
    is_framebuffer_binding, is_viewport, last_where,
    lemma_last_where_append,
};
use crate::texture::Texture;
use crate::vertexlayout::{layout_stride, VertexAtribute, MAX_STRIDE};

verus! {

/// The largest viewport side a backend accepts (a signed 32-bit size).
pub const MAX_VIEWPORT: u32 = 0x7fff_ffff;

/// Where a renderer is in its frame.
#[derive(Clone, Copy, Debug, PartialEq, Eq, Structural)]
pub enum ScenePhase {
    Idle,
    /// Drawing to the default surface.
    InScene,
    /// Drawing into an offscreen framebuffer.
    InFramebufferScene,
}

/// A scene-phase operation called out of order.
#[derive(Clone, Copy, Debug, PartialEq, Eq, Structural)]
pub enum SceneError {
    AlreadyInScene,
    NotInScene,
}

/// The log entries of starting a scene on the default surface.
pub open spec fn begin_scene_ops(background: Color, size: (u32, u32)) -> Seq<GpuOp> {
    seq![
        GpuOp::Command(GpuCommand::MakeCurrent),
        GpuOp::Command(GpuCommand::BindFramebuffer(0)),
        GpuOp::Command(GpuCommand::Viewport { width: size.0, height: size.1 }),
        GpuOp::Command(GpuCommand::ClearColor(background)),
        GpuOp::Command(GpuCommand::Clear),
    ]
}

/// The log entries of starting a scene that renders into framebuffer `fb`.
pub open spec fn begin_framebuffer_scene_ops(background: Color, size: (u32, u32), fb: u32) -> Seq<GpuOp> {
    seq![
        GpuOp::Command(GpuCommand::MakeCurrent),
        GpuOp::Command(GpuCommand::BindFramebuffer(fb)),
        GpuOp::Command(GpuCommand::Viewport { width: size.0, height: size.1 }),
        GpuOp::Command(GpuCommand::ClearColor(background)),
        GpuOp::Command(GpuCommand::Clear),
    ]
}

/// Binding texture `i` of `textures` to unit `i`, for each in order.
pub open spec fn texture_bind_ops(textures: Seq<Texture>) -> Seq<GpuOp> {
    Seq::new(
        textures.len(),
        |i: int| GpuOp::Command(GpuCommand::BindTexture { slot: i as u32, name: textures[i].name() }),
    )
}

/// The log entries of a one-off draw through transient objects `vao`, `ibo`
/// and `vbo`, which are released afterwards.
pub open spec fn immediate_draw_ops(
    vao: u32,
    ibo: u32,
    vbo: u32,
    vertices: Seq<u8>,
    indices: Seq<u32>,
    layout: Seq<VertexAtribute>,
    shader: u32,
    textures: Seq<Texture>,
) -> Seq<GpuOp> {
    mesh_setup_ops(vao, ibo, vbo, vertices, indices, layout) + texture_bind_ops(textures) + seq![
        GpuOp::Command(GpuCommand::UseProgram(shader)),
        GpuOp::Command(GpuCommand::DrawIndexed(indices.len() as u32)),
        GpuOp::Delete(GpuObject { kind: crate::gpu::ObjectKind::Buffer, name: ibo }),
        GpuOp::Delete(GpuObject { kind: crate::gpu::ObjectKind::Buffer, name: vbo }),
        GpuOp::Delete(GpuObject { kind: crate::gpu::ObjectKind::VertexArray, name: vao }),
    ]
}

/// Starting a scene sets the viewport, the clear color and the color target
/// (the default surface) from its arguments, whatever was issued before it:
/// an earlier scene leaves nothing behind that a later one would see.
pub proof fn lemma_scene_state_from_arguments(prior: Seq<GpuOp>, background: Color, size: (u32, u32))
    ensures
        current_viewport(prior + begin_scene_ops(background, size)) == Some(size),
        current_clear_color(prior + begin_scene_ops(background, size)) == Some(background),
        current_framebuffer(prior + begin_scene_ops(background, size)) == 0,
{
    let b = begin_scene_ops(background, size);
    let fv = |op: GpuOp| is_viewport(op);
    let fc = |op: GpuOp| is_clear_color(op);
    let ff = |op: GpuOp| is_framebuffer_binding(op);
    reveal_with_fuel(last_where, 5);
    assert(b.drop_last() =~= seq![b[0], b[1], b[2], b[3]]);
    assert(b.drop_last().drop_last() =~= seq![b[0], b[1], b[2]]);
    assert(b.drop_last().drop_last().drop_last() =~= seq![b[0], b[1]]);
    assert(last_where(b, fv) == Some(b[2]));
    assert(last_where(b, fc) == Some(b[3]));
    assert(last_where(b, ff) == Some(b[1]));
    lemma_last_where_append(prior, b, fv);
    lemma_last_where_append(prior, b, fc);
    lemma_last_where_append(prior, b, ff);
}

/// A scene begun after any earlier history (for instance a begun scene, its
/// draws and its end) is in the same state as the same scene begun on a
/// fresh renderer, whose log is empty.
pub proof fn lemma_scene_pair_independent(
    earlier: Seq<GpuOp>,
    background: Color,
    size: (u32, u32),
)
    ensures
        current_viewport(earlier + begin_scene_ops(background, size)) == current_viewport(
            Seq::<GpuOp>::empty() + begin_scene_ops(background, size),
        ),
        current_clear_color(earlier + begin_scene_ops(background, size)) == current_clear_color(
            Seq::<GpuOp>::empty() + begin_scene_ops(background, size),
        ),
        current_framebuffer(earlier + begin_scene_ops(background, size)) == current_framebuffer(
            Seq::<GpuOp>::empty() + begin_scene_ops(background, size),
        ),
{
    lemma_scene_state_from_arguments(earlier, background, size);
    lemma_scene_state_from_arguments(Seq::<GpuOp>::empty(), background, size);
}

/// As for `begin_scene`, for a scene that renders into framebuffer `fb`.
pub proof fn lemma_framebuffer_scene_state_from_arguments(
    prior: Seq<GpuOp>,
    background: Color,
    size: (u32, u32),
    fb: u32,
)
    ensures
        current_viewport(prior + begin_framebuffer_scene_ops(background, size, fb)) == Some(size),
        current_clear_color(prior + begin_framebuffer_scene_ops(background, size, fb)) == Some(background),
        current_framebuffer(prior + begin_framebuffer_scene_ops(background, size, fb)) == fb,
{
    let b = begin_framebuffer_scene_ops(background, size, fb);
    let fv = |op: GpuOp| is_viewport(op);
    let fc = |op: GpuOp| is_clear_color(op);
    let ff = |op: GpuOp| is_framebuffer_binding(op);
    reveal_with_fuel(last_where, 5);
    assert(b.drop_last() =~= seq![b[0], b[1], b[2], b[3]]);
    assert(b.drop_last().drop_last() =~= seq![b[0], b[1], b[2]]);
    assert(b.drop_last().drop_last().drop_last() =~= seq![b[0], b[1]]);
    assert(last_where(b, fv) == Some(b[2]));
    assert(last_where(b, fc) == Some(b[3]));
    assert(last_where(b, ff) == Some(b[1]));
    lemma_last_where_append(prior, b, fv);
    lemma_last_where_append(prior, b, fc);
    lemma_last_where_append(prior, b, ff);
}

/// The frame façade over a backend: begins and ends scenes and submits
/// draws. It does not own the shaders, textures or meshes it draws.
pub struct Renderer<D: Device> {
    gpu: Gpu<D>,
    phase: ScenePhase,
    viewport: (u32, u32),
}

impl<D: Device> Renderer<D> {
    pub closed spec fn spec_gpu(&self) -> Gpu<D> {
        self.gpu
    }

    pub fn gpu(&self) -> (r: &Gpu<D>)
        ensures
            *r == self.spec_gpu(),
    {
        &self.gpu
    }

    /// The backend, for building and releasing the objects that get drawn.
    pub fn gpu_mut(&mut self) -> (r: &mut Gpu<D>)
        ensures
            *r == old(self).spec_gpu(),
            final(self).spec_gpu() == *final(r),
            final(self).phase() == old(self).phase(),
            final(self).viewport() == old(self).viewport(),
    {
        &mut self.gpu
    }

    pub closed spec fn phase(&self) -> ScenePhase {
        self.phase
    }

    pub closed spec fn viewport(&self) -> (u32, u32) {
        self.viewport
    }

    pub fn new(device: D) -> (r: Self)
        ensures
            r.spec_gpu().ops() == Seq::<GpuOp>::empty(),
            r.spec_gpu().live() == vstd::multiset::Multiset::<GpuObject>::empty(),
            r.phase() == ScenePhase::Idle,
            r.viewport() == (0u32, 0u32),
    {
        Renderer { gpu: Gpu::new(device), phase: ScenePhase::Idle, viewport: (0, 0) }
    }

    pub fn scene_phase(&self) -> (r: ScenePhase)
        ensures
            r == self.phase(),
    {
        self.phase
    }

    /// The size given to the last scene begun; projections take their
    /// aspect ratio from it.
    pub fn get_viewport(&self) -> (r: (u32, u32))
        ensures
            r == self.viewport(),
    {
        self.viewport
    }

    /// Makes the context current, sets the viewport to `viewport_size` and
    /// clears to `background`. Refused while a scene is open.
    pub fn begin_scene(&mut self, background: &Color, viewport_size: (u32, u32)) -> (r: Result<(), SceneError>)
        requires
            viewport_size.0 <= MAX_VIEWPORT,
            viewport_size.1 <= MAX_VIEWPORT,
        ensures
            old(self).phase() != ScenePhase::Idle ==> r == Err::<(), SceneError>(SceneError::AlreadyInScene)
                && *final(self) == *old(self),
            old(self).phase() == ScenePhase::Idle ==> {
                &&& r == Ok::<(), SceneError>(())
                &&& final(self).phase() == ScenePhase::InScene
                &&& final(self).viewport() == viewport_size
                &&& final(self).spec_gpu().live() == old(self).spec_gpu().live()
                &&& final(self).spec_gpu().ops() == old(self).spec_gpu().ops() + begin_scene_ops(*background, viewport_size)
            },
    {
        if self.phase != ScenePhase::Idle {
            return Err(SceneError::AlreadyInScene);
        }
        self.gpu.submit(GpuCommand::MakeCurrent);
        FrameBuffer::unbind(&mut self.gpu);
        self.gpu.submit(GpuCommand::Viewport { width: viewport_size.0, height: viewport_size.1 });
        self.gpu.submit(GpuCommand::ClearColor(*background));
        self.gpu.submit(GpuCommand::Clear);
        self.phase = ScenePhase::InScene;
        self.viewport = viewport_size;
        proof {
            assert(self.gpu.ops() =~= old(self).spec_gpu().ops() + begin_scene_ops(*background, viewport_size));
        }
        Ok(())
    }

    /// As `begin_scene`, with `framebuffer` as the color target until the
    /// scene ends.
    pub fn begin_scene_framebuffer(
        &mut self,
        background: &Color,
        viewport_size: (u32, u32),
        framebuffer: &FrameBuffer,
    ) -> (r: Result<(), SceneError>)
        requires
            viewport_size.0 <= MAX_VIEWPORT,
            viewport_size.1 <= MAX_VIEWPORT,
        ensures
            old(self).phase() != ScenePhase::Idle ==> r == Err::<(), SceneError>(SceneError::AlreadyInScene)
                && *final(self) == *old(self),
            old(self).phase() == ScenePhase::Idle ==> {
                &&& r == Ok::<(), SceneError>(())
                &&& final(self).phase() == ScenePhase::InFramebufferScene
                &&& final(self).viewport() == viewport_size
                &&& final(self).spec_gpu().live() == old(self).spec_gpu().live()
                &&& final(self).spec_gpu().ops() == old(self).spec_gpu().ops() + begin_framebuffer_scene_ops(
                    *background,
                    viewport_size,
                    framebuffer.name(),
                )
            },
    {
        if self.phase != ScenePhase::Idle {
            return Err(SceneError::AlreadyInScene);
        }
        self.gpu.submit(GpuCommand::MakeCurrent);
        framebuffer.bind(&mut self.gpu);
        self.gpu.submit(GpuCommand::Viewport { width: viewport_size.0, height: viewport_size.1 });
        self.gpu.submit(GpuCommand::ClearColor(*background));
        self.gpu.submit(GpuCommand::Clear);
        self.phase = ScenePhase::InFramebufferScene;
        self.viewport = viewport_size;
        proof {
            assert(self.gpu.ops() =~= old(self).spec_gpu().ops() + begin_framebuffer_scene_ops(
                *background,
                viewport_size,
                framebuffer.name(),
            ));
        }
        Ok(())
    }

    /// Closes the open scene; a framebuffer target is swapped back for the
    /// default surface. Refused when no scene is open.
    pub fn end_scene(&mut self) -> (r: Result<(), SceneError>)
        ensures
            old(self).phase() == ScenePhase::Idle ==> r == Err::<(), SceneError>(SceneError::NotInScene)
                && *final(self) == *old(self),
            old(self).phase() != ScenePhase::Idle ==> {
                &&& r == Ok::<(), SceneError>(())
                &&& final(self).phase() == ScenePhase::Idle
                &&& final(self).viewport() == old(self).viewport()
                &&& final(self).spec_gpu().live() == old(self).spec_gpu().live()
                &&& final(self).spec_gpu().ops() == if old(self).phase() == ScenePhase::InFramebufferScene {
                    old(self).spec_gpu().ops().push(GpuOp::Command(GpuCommand::BindFramebuffer(0)))
                } else {
                    old(self).spec_gpu().ops()
                }
            },
    {
        match self.phase {
            ScenePhase::Idle => Err(SceneError::NotInScene),
            ScenePhase::InScene => {
                self.phase = ScenePhase::Idle;
                Ok(())
            },
            ScenePhase::InFramebufferScene => {
                FrameBuffer::unbind(&mut self.gpu);
                self.phase = ScenePhase::Idle;
                Ok(())
            },
        }
    }

    fn bind_textures(&mut self, textures: &[Texture])
        requires
            textures@.len() <= u32::MAX,
        ensures
            final(self).phase() == old(self).phase(),
            final(self).viewport() == old(self).viewport(),
            final(self).spec_gpu().live() == old(self).spec_gpu().live(),
            final(self).spec_gpu().ops() == old(self).spec_gpu().ops() + texture_bind_ops(textures@),
    {
        let mut i: usize = 0;
        while i < textures.len()
            invariant
                textures@.len() <= u32::MAX,
                0 <= i <= textures@.len(),
                self.phase() == old(self).phase(),
                self.viewport() == old(self).viewport(),
                self.gpu.live() == old(self).spec_gpu().live(),
                self.gpu.ops() == old(self).spec_gpu().ops() + texture_bind_ops(textures@).take(i as int),
            decreases textures@.len() - i,
        {
            textures[i].bind(&mut self.gpu, i as u32);
            proof {
                assert(texture_bind_ops(textures@).take(i as int + 1) =~= texture_bind_ops(textures@).take(
                    i as int,
                ).push(GpuOp::Command(GpuCommand::BindTexture { slot: i as u32, name: textures@[i as int].name() })));
            }
            i = i + 1;
        }
        proof {
            assert(texture_bind_ops(textures@).take(i as int) =~= texture_bind_ops(textures@));
        }
    }

    /// Binds `textures` to units 0, 1, ... in order, makes `shader` active
    /// and draws `renderable`.
    pub fn draw_renderable(&mut self, renderable: &Renderable, shader: &ShaderProgram, textures: &[Texture])
        requires
            textures@.len() <= u32::MAX,
        ensures
            final(self).phase() == old(self).phase(),
            final(self).viewport() == old(self).viewport(),
            final(self).spec_gpu().live() == old(self).spec_gpu().live(),
            final(self).spec_gpu().ops() == old(self).spec_gpu().ops() + texture_bind_ops(textures@) + seq![
                GpuOp::Command(GpuCommand::UseProgram(shader.name())),
            ] + draw_ops(renderable.vertex_array(), renderable.index_count()),
    {
        self.bind_textures(textures);
        shader.bind(&mut self.gpu);
        renderable.draw(&mut self.gpu);
        proof {
            assert(self.gpu.ops() =~= old(self).spec_gpu().ops() + texture_bind_ops(textures@) + seq![
                GpuOp::Command(GpuCommand::UseProgram(shader.name())),
            ] + draw_ops(renderable.vertex_array(), renderable.index_count()));
        }
    }

    /// Draws one-off geometry: builds a transient mesh, binds `textures` to
    /// units 0, 1, ... and `shader`, draws all of `indices`, and releases the
    /// transient objects again. No object stays allocated, whatever happens.
    pub fn draw(
        &mut self,
        vertices: &[u8],
        indices: &[u32],
        vertex_layout: &[VertexAtribute],
        shader: &ShaderProgram,
        textures: &[Texture],
    ) -> (r: Result<(), GpuError>)
        requires
            layout_stride(vertex_layout@) <= MAX_STRIDE,
            indices@.len() <= MAX_INDICES,
            textures@.len() <= u32::MAX,
        ensures
            final(self).phase() == old(self).phase(),
            final(self).viewport() == old(self).viewport(),
            final(self).spec_gpu().live() == old(self).spec_gpu().live(),
            r matches Err(e) ==> mesh_aborted(old(self).spec_gpu().ops(), final(self).spec_gpu().ops(), e, indices@),
            r is Ok ==> exists|vao: u32, ibo: u32, vbo: u32|
                final(self).spec_gpu().ops() == old(self).spec_gpu().ops() + #[trigger] immediate_draw_ops(
                    vao,
                    ibo,
                    vbo,
                    vertices@,
                    indices@,
                    vertex_layout@,
                    shader.name(),
                    textures@,
                ),
    {
        let ghost live0 = self.gpu.live();
        let ghost ops0 = self.gpu.ops();
        let vao = match Vao::new(&mut self.gpu) {
            Ok(v) => v,
            Err(e) => {
                assert(self.gpu.ops() =~= ops0 + mesh_abort_ops(0, 0, 0, indices@));
                return Err(e);
            },
        };
        proof {
            lemma_insert_remove(live0, vao.object());
        }
        vao.bind(&mut self.gpu);
        let mut ibo = match Ibo::new(&mut self.gpu) {
            Ok(b) => b,
            Err(e) => {
                vao.release(&mut self.gpu);
                assert(self.gpu.ops() =~= ops0 + mesh_abort_ops(1, vao.name(), 0, indices@));
                return Err(e);
            },
        };
        ibo.data(&mut self.gpu, indices);
        let mut vbo = match Vbo::new(&mut self.gpu) {
            Ok(b) => b,
            Err(e) => {
                ibo.release(&mut self.gpu);
                vao.release(&mut self.gpu);
                proof {
                    broadcast use vstd::multiset::group_multiset_axioms;

                    assert(live0.insert(vao.object()).insert(ibo.object()).remove(ibo.object()).remove(
                        vao.object(),
                    ) =~= live0);
                    assert(self.gpu.ops() =~= ops0 + mesh_abort_ops(2, vao.name(), ibo.name(), indices@));
                }
                return Err(e);
            },
        };
        vbo.data(&mut self.gpu, vertices);
        vao.set_vertex_layout(&mut self.gpu, vertex_layout);
        let ghost ops1 = self.gpu.ops();
        self.bind_textures(textures);
        shader.bind(&mut self.gpu);
        self.gpu.submit(GpuCommand::DrawIndexed(indices.len() as u32));
        let ghost (vao_name, ibo_name, vbo_name) = (vao.name(), ibo.name(), vbo.name());
        ibo.release(&mut self.gpu);
        vbo.release(&mut self.gpu);
        vao.release(&mut self.gpu);
        proof {
            broadcast use vstd::multiset::group_multiset_axioms;

            assert(live0.insert(GpuObject { kind: crate::gpu::ObjectKind::VertexArray, name: vao_name }).insert(
                GpuObject { kind: crate::gpu::ObjectKind::Buffer, name: ibo_name },
            ).insert(GpuObject { kind: crate::gpu::ObjectKind::Buffer, name: vbo_name }).remove(
                GpuObject { kind: crate::gpu::ObjectKind::Buffer, name: ibo_name },
            ).remove(GpuObject { kind: crate::gpu::ObjectKind::Buffer, name: vbo_name }).remove(
                GpuObject { kind: crate::gpu::ObjectKind::VertexArray, name: vao_name },
            ) =~= live0);
            assert(ops1 =~= ops0 + mesh_setup_ops(vao_name, ibo_name, vbo_name, vertices@, indices@, vertex_layout@));
            assert(self.gpu.ops() =~= ops0 + immediate_draw_ops(
                vao_name,
                ibo_name,
                vbo_name,
                vertices@,
                indices@,
                vertex_layout@,
                shader.name(),
                textures@,
            ));
        }
        Ok(())
    }
}

} // verus!

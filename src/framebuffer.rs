use vstd::prelude::*;
use crate::gpu::{Device, Gpu, GpuCommand, GpuError, GpuObject, GpuOp, ObjectKind};
use crate::texture::Texture;

verus! {

/// An offscreen color target: a framebuffer that owns the texture it renders into.
pub struct FrameBuffer {
    id: u32,
    color: Texture,
}

impl FrameBuffer {
    pub closed spec fn name(&self) -> u32 {
        self.id
    }

    pub closed spec fn color_texture(&self) -> u32 {
        self.color.name()
    }

    pub open spec fn object(&self) -> GpuObject {
        GpuObject { kind: ObjectKind::Framebuffer, name: self.name() }
    }

    /// Makes a framebuffer with `texture` attached as color target 0.
    pub fn new<D: Device>(gpu: &mut Gpu<D>, texture: Texture) -> (r: Result<FrameBuffer, (GpuError, Texture)>)
        ensures
            match r {
                Ok(fb) => {
                    &&& fb.name() != 0
                    &&& fb.color_texture() == texture.name()
                    &&& final(gpu).live() == old(gpu).live().insert(fb.object())
                    &&& final(gpu).ops() == old(gpu).ops() + seq![
                        GpuOp::Create(fb.object()),
                        GpuOp::Command(GpuCommand::BindFramebuffer(fb.name())),
                        GpuOp::Command(GpuCommand::BindTexture { slot: 0, name: texture.name() }),
                        GpuOp::Command(GpuCommand::AttachColorTexture(texture.name())),
                        GpuOp::Command(GpuCommand::BindFramebuffer(0)),
                    ]
                },
                Err((e, t)) => {
                    &&& e == GpuError::NullHandle(ObjectKind::Framebuffer)
                    &&& t == texture
                    &&& final(gpu).live() == old(gpu).live()
                    &&& final(gpu).ops() == old(gpu).ops().push(GpuOp::CreateFailed(ObjectKind::Framebuffer))
                },
            },
    {
        let id = match gpu.acquire(ObjectKind::Framebuffer) {
            Ok(id) => id,
            Err(e) => {
                return Err((e, texture));
            },
        };
        gpu.submit(GpuCommand::BindFramebuffer(id));
        texture.bind(gpu, 0);
        gpu.submit(GpuCommand::AttachColorTexture(texture.id()));
        gpu.submit(GpuCommand::BindFramebuffer(0));
        let fb = FrameBuffer { id, color: texture };
        proof {
            assert(gpu.ops() =~= old(gpu).ops() + seq![
                GpuOp::Create(fb.object()),
                GpuOp::Command(GpuCommand::BindFramebuffer(fb.name())),
                GpuOp::Command(GpuCommand::BindTexture { slot: 0, name: texture.name() }),
                GpuOp::Command(GpuCommand::AttachColorTexture(texture.name())),
                GpuOp::Command(GpuCommand::BindFramebuffer(0)),
            ]);
        }
        Ok(fb)
    }

    pub fn id(&self) -> (r: u32)
        ensures
            r == self.name(),
    {
        self.id
    }

    pub fn color(&self) -> (r: &Texture)
        ensures
            r.name() == self.color_texture(),
    {
        &self.color
    }

    pub fn bind<D: Device>(&self, gpu: &mut Gpu<D>)
        ensures
            final(gpu).live() == old(gpu).live(),
            final(gpu).ops() == old(gpu).ops().push(GpuOp::Command(GpuCommand::BindFramebuffer(self.name()))),
    {
        gpu.submit(GpuCommand::BindFramebuffer(self.id));
    }

    /// Makes the default surface the color target again.
    pub fn unbind<D: Device>(gpu: &mut Gpu<D>)
        ensures
            final(gpu).live() == old(gpu).live(),
            final(gpu).ops() == old(gpu).ops().push(GpuOp::Command(GpuCommand::BindFramebuffer(0))),
    {
        gpu.submit(GpuCommand::BindFramebuffer(0));
    }

    /// Releases the framebuffer, then its texture.
    pub fn release<D: Device>(self, gpu: &mut Gpu<D>)
        ensures
            final(gpu).live() == old(gpu).live().remove(self.object()).remove(
                GpuObject { kind: ObjectKind::Texture, name: self.color_texture() },
            ),
            final(gpu).ops() == old(gpu).ops().push(GpuOp::Delete(self.object())).push(
                GpuOp::Delete(GpuObject { kind: ObjectKind::Texture, name: self.color_texture() }),
            ),
    {
        gpu.release(GpuObject { kind: ObjectKind::Framebuffer, name: self.id });
        self.color.release(gpu);
    }
}

} // verus!

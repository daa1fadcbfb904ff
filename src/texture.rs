use vstd::prelude::*;
use crate::gpu::{Device, Gpu, GpuCommand, GpuError, GpuObject, GpuOp, MagFilter, MinFilter, ObjectKind, PixelFormat};

verus! {

/// How a texture is sampled when magnified and minified.
#[derive(Clone, Copy, Debug, PartialEq, Eq, Structural)]
pub enum SamplingMode {
    Nearest,
    Linear,
}

/// A CPU-side image with 8 bits per channel, rows stored one after another.
pub struct PixelImage {
    width: u32,
    height: u32,
    channels: u8,
    pixels: Vec<u8>,
}

/// The channel counts an image may have: 3 (RGB) or 4 (RGBA).
pub open spec fn supported_channels(channels: u8) -> bool {
    channels == 3 || channels == 4
}

pub open spec fn format_of(channels: u8) -> PixelFormat {
    if channels == 3 {
        PixelFormat::Rgb
    } else {
        PixelFormat::Rgba
    }
}

/// Nearest: nearest magnification, nearest-mipmap minification.
/// Linear: linear magnification, trilinear minification.
pub open spec fn filters_of(mode: SamplingMode) -> (MagFilter, MinFilter) {
    match mode {
        SamplingMode::Nearest => (MagFilter::Nearest, MinFilter::LinearMipmapNearest),
        SamplingMode::Linear => (MagFilter::Linear, MinFilter::LinearMipmapLinear),
    }
}

impl PixelImage {
    pub closed spec fn spec_width(&self) -> u32 {
        self.width
    }

    pub closed spec fn spec_height(&self) -> u32 {
        self.height
    }

    pub closed spec fn spec_channels(&self) -> u8 {
        self.channels
    }

    pub closed spec fn spec_pixels(&self) -> Seq<u8> {
        self.pixels@
    }

    /// Three or four channels, and exactly one byte per channel of every pixel.
    pub open spec fn wf(&self) -> bool {
        &&& supported_channels(self.spec_channels())
        &&& self.spec_pixels().len() == self.spec_width() as int * self.spec_height() as int
            * self.spec_channels() as int
    }

    /// An image of `width` x `height` pixels of `channels` bytes each; `None`
    /// when the channel count is unsupported or `pixels` has another length.
    pub fn new(width: u32, height: u32, channels: u8, pixels: Vec<u8>) -> (r: Option<PixelImage>)
        ensures
            match r {
                Some(img) => {
                    &&& img.wf()
                    &&& img.spec_width() == width
                    &&& img.spec_height() == height
                    &&& img.spec_channels() == channels
                    &&& img.spec_pixels() == pixels@
                },
                None => !supported_channels(channels) || pixels@.len() != width as int * height as int
                    * channels as int,
            },
    {
        if channels != 3 && channels != 4 {
            return None;
        }
        proof {
            assert(width as int * height as int <= 0xffff_ffff * 0xffff_ffff) by (nonlinear_arith)
                requires
                    width <= 0xffff_ffff,
                    height <= 0xffff_ffff,
            ;
        }
        let area = (width as u64) * (height as u64);
        let size = area.checked_mul(channels as u64);
        match size {
            Some(n) => {
                assert(n == width as int * height as int * channels as int);
                assert(pixels.len() <= u64::MAX);
                if pixels.len() as u64 == n {
                    Some(PixelImage { width, height, channels, pixels })
                } else {
                    None
                }
            },
            None => {
                proof {
                    assert(width as int * height as int * channels as int > u64::MAX);
                }
                None
            },
        }
    }

    pub fn width(&self) -> (r: u32)
        ensures
            r == self.spec_width(),
    {
        self.width
    }

    pub fn height(&self) -> (r: u32)
        ensures
            r == self.spec_height(),
    {
        self.height
    }

    pub fn channels(&self) -> (r: u8)
        ensures
            r == self.spec_channels(),
    {
        self.channels
    }

    pub fn pixels(&self) -> (r: &[u8])
        ensures
            r@ == self.spec_pixels(),
    {
        self.pixels.as_slice()
    }

    /// The pixel format that the channel count gives.
    pub fn format(&self) -> (r: PixelFormat)
        requires
            self.wf(),
        ensures
            r == format_of(self.spec_channels()),
    {
        if self.channels == 3 {
            PixelFormat::Rgb
        } else {
            PixelFormat::Rgba
        }
    }
}

/// The log entries of setting up texture `name` from `image`.
pub open spec fn texture_setup_ops(name: u32, image: &PixelImage, mode: SamplingMode) -> Seq<GpuOp> {
    seq![
        GpuOp::Create(GpuObject { kind: ObjectKind::Texture, name }),
        GpuOp::Command(GpuCommand::BindTexture { slot: 0, name }),
        GpuOp::TextureImage {
            format: format_of(image.spec_channels()),
            width: image.spec_width(),
            height: image.spec_height(),
            pixels: image.spec_pixels(),
        },
        GpuOp::Command(GpuCommand::TextureWrapRepeat),
        GpuOp::Command(GpuCommand::TextureFilter { mag: filters_of(mode).0, min: filters_of(mode).1 }),
        GpuOp::Command(GpuCommand::GenerateMipmap),
    ]
}

/// A 2D texture with a mipmap chain, owned: released once, by `release`.
pub struct Texture {
    id: u32,
}

impl Texture {
    pub closed spec fn name(&self) -> u32 {
        self.id
    }

    pub open spec fn object(&self) -> GpuObject {
        GpuObject { kind: ObjectKind::Texture, name: self.name() }
    }

    pub fn id(&self) -> (r: u32)
        ensures
            r == self.name(),
    {
        self.id
    }

    /// Uploads `image` as mip level 0, sets repeat wrapping and the filters
    /// of `mode`, then generates the mipmap chain.
    pub fn new<D: Device>(gpu: &mut Gpu<D>, image: &PixelImage, mode: SamplingMode) -> (r: Result<Texture, GpuError>)
        requires
            image.wf(),
        ensures
            match r {
                Ok(t) => {
                    &&& t.name() != 0
                    &&& final(gpu).live() == old(gpu).live().insert(t.object())
                    &&& final(gpu).ops() == old(gpu).ops() + texture_setup_ops(t.name(), image, mode)
                },
                Err(e) => {
                    &&& e == GpuError::NullHandle(ObjectKind::Texture)
                    &&& final(gpu).live() == old(gpu).live()
                    &&& final(gpu).ops() == old(gpu).ops().push(GpuOp::CreateFailed(ObjectKind::Texture))
                },
            },
    {
        let id = gpu.acquire(ObjectKind::Texture)?;
        gpu.submit(GpuCommand::BindTexture { slot: 0, name: id });
        gpu.upload_image(image.format(), image.width(), image.height(), image.pixels());
        gpu.submit(GpuCommand::TextureWrapRepeat);
        let (mag, min) = match mode {
            SamplingMode::Nearest => (MagFilter::Nearest, MinFilter::LinearMipmapNearest),
            SamplingMode::Linear => (MagFilter::Linear, MinFilter::LinearMipmapLinear),
        };
        gpu.submit(GpuCommand::TextureFilter { mag, min });
        gpu.submit(GpuCommand::GenerateMipmap);
        let t = Texture { id };
        proof {
            assert(gpu.ops() =~= old(gpu).ops() + texture_setup_ops(id, image, mode));
        }
        Ok(t)
    }

    /// Activates texture unit `slot` and binds this texture to it.
    pub fn bind<D: Device>(&self, gpu: &mut Gpu<D>, slot: u32)
        ensures
            final(gpu).live() == old(gpu).live(),
            final(gpu).ops() == old(gpu).ops().push(
                GpuOp::Command(GpuCommand::BindTexture { slot, name: self.name() }),
            ),
    {
        gpu.submit(GpuCommand::BindTexture { slot, name: self.id });
    }

    pub fn release<D: Device>(self, gpu: &mut Gpu<D>)
        ensures
            final(gpu).live() == old(gpu).live().remove(self.object()),
            final(gpu).ops() == old(gpu).ops().push(GpuOp::Delete(self.object())),
    {
        gpu.release(GpuObject { kind: ObjectKind::Texture, name: self.id });
    }
}

} // verus!

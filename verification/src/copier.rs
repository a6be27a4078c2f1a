use core::sync::atomic::{AtomicBool, Ordering};
use std::sync::Arc;
use vstd::prelude::*;

use crate::layout::{padded_bytes_per_row, spec_block_width, spec_padded_bytes_per_row, PixelFormat};

verus! {

/// Whether the off-screen pipeline has been built yet, and the extent it
/// renders at.
#[derive(Debug)]
pub struct RatRenderState {
    pub built: bool,
    pub width: u32,
    pub height: u32,
}

impl RatRenderState {
    pub fn new(width: u32, height: u32) -> (s: RatRenderState)
        ensures
            !s.built,
            s.width == width,
            s.height == height,
    {
        RatRenderState { built: false, width, height }
    }
}

/// The CPU-side image a delivered frame is written back into, named by its
/// asset identifier.
pub struct ImageToSave(pub u64);

/// One per-frame readback request: the texture to copy from, a staging
/// buffer sized for its aligned rows, and a shared enable flag.
///
/// The staging buffer itself lives on the device; here it is represented by
/// its size, fixed at construction and never changed afterwards. The enable
/// flag is shared: every handle cloned off this request reads and writes the
/// same atomic cell, so the producer side can pause the readback while the
/// copy side iterates.
pub struct ImageCopier {
    buffer_size: u64,
    enabled: Arc<AtomicBool>,
    src_image: u64,
    width: u32,
    height: u32,
    format: PixelFormat,
}

impl ImageCopier {
    /// The asset identifier of the source texture.
    pub closed spec fn spec_src_image(&self) -> u64 {
        self.src_image
    }

    /// The byte size of the staging buffer.
    pub closed spec fn spec_buffer_size(&self) -> u64 {
        self.buffer_size
    }

    pub closed spec fn spec_width(&self) -> u32 {
        self.width
    }

    pub closed spec fn spec_height(&self) -> u32 {
        self.height
    }

    pub closed spec fn spec_format(&self) -> PixelFormat {
        self.format
    }

    /// The identity of the shared enable flag.
    pub closed spec fn spec_flag(&self) -> AtomicBool {
        *self.enabled
    }

    /// The staging buffer always covers `height` rows at the aligned row
    /// pitch of the creation extent; a request is never resized in place.
    pub open spec fn wf(&self) -> bool {
        &&& self.spec_width() as int % spec_block_width(self.spec_format()) == 0
        &&& self.spec_buffer_size() == self.spec_height() * spec_padded_bytes_per_row(
            self.spec_width() as int,
            self.spec_format(),
        )
    }

    /// Builds a request for reading `src_image` back each frame: sizes the
    /// staging buffer for one full aligned copy of the texture and starts
    /// enabled.
    pub fn new(src_image: u64, width: u32, height: u32, format: PixelFormat) -> (c: ImageCopier)
        requires
            width as int % spec_block_width(format) == 0,
            height * spec_padded_bytes_per_row(width as int, format) <= u64::MAX,
        ensures
            c.wf(),
            c.spec_src_image() == src_image,
            c.spec_width() == width,
            c.spec_height() == height,
            c.spec_format() == format,
            c.spec_buffer_size() == height * spec_padded_bytes_per_row(width as int, format),
    {
        let padded = padded_bytes_per_row(width, format);
        let buffer_size = (height as u64) * padded;
        ImageCopier {
            buffer_size,
            enabled: Arc::new(AtomicBool::new(true)),
            src_image,
            width,
            height,
            format,
        }
    }

    /// The asset identifier of the texture this request reads back.
    pub fn src_image(&self) -> (r: u64)
        ensures
            r == self.spec_src_image(),
    {
        self.src_image
    }

    /// The byte size of the staging buffer the request owns.
    pub fn buffer_size(&self) -> (r: u64)
        ensures
            r == self.spec_buffer_size(),
    {
        self.buffer_size
    }

    /// Reads the shared enable flag. Another context may flip the flag at
    /// any moment, so nothing relates the result to earlier reads.
    pub fn enabled(&self) -> bool {
        self.enabled.load(Ordering::Relaxed)
    }

    /// Writes the shared enable flag; every handle sharing this request's
    /// flag observes the write.
    pub fn set_enabled(&self, value: bool) {
        self.enabled.store(value, Ordering::Relaxed)
    }
}

/// Relies on Arc::clone: the returned handle refers to the very atomic cell
/// `flag` refers to, so a store through one is seen by loads through the
/// other.
#[verifier::external_body]
fn share_flag(flag: &Arc<AtomicBool>) -> (out: Arc<AtomicBool>)
    ensures
        out == *flag,
{
    Arc::clone(flag)
}

impl Clone for ImageCopier {
    /// The copy describes the same request: same source, same staging-buffer
    /// size, and the same (shared) enable flag.
    fn clone(&self) -> (out: Self)
        ensures
            out == *self,
    {
        ImageCopier {
            buffer_size: self.buffer_size,
            enabled: share_flag(&self.enabled),
            src_image: self.src_image,
            width: self.width,
            height: self.height,
            format: self.format,
        }
    }
}

/// What a texture may be used for on the device.
#[derive(Clone, Copy, PartialEq, Eq, Structural, Debug)]
pub struct TextureUsage {
    pub copy_src: bool,
    pub copy_dst: bool,
    pub render_attachment: bool,
    pub texture_binding: bool,
}

/// The shape of a texture the producer creates: extent, format, and what
/// the device may do with it.
#[derive(Clone, Copy, PartialEq, Eq, Structural, Debug)]
pub struct TextureDescriptor {
    pub width: u32,
    pub height: u32,
    pub format: PixelFormat,
    pub usage: TextureUsage,
}

/// Describes the render-target pair for an off-screen extent: a render
/// texture the scene is drawn into and then copied out of, and a CPU-side
/// mirror of the same extent and format that delivered frames are written
/// back into. Both use the default four-channel format; only the render one
/// may be a render attachment and a copy source.
pub fn create_render_textures(width: u32, height: u32) -> (pair: (
    TextureDescriptor,
    TextureDescriptor,
))
    ensures
        pair.0.width == width && pair.0.height == height,
        pair.1.width == width && pair.1.height == height,
        pair.0.format == PixelFormat::Rgba8UnormSrgb,
        pair.1.format == pair.0.format,
        pair.0.usage == (TextureUsage {
            copy_src: true,
            copy_dst: true,
            render_attachment: true,
            texture_binding: true,
        }),
        pair.1.usage == (TextureUsage {
            copy_src: false,
            copy_dst: true,
            render_attachment: false,
            texture_binding: true,
        }),
{
    let render_texture = TextureDescriptor {
        width,
        height,
        format: PixelFormat::Rgba8UnormSrgb,
        usage: TextureUsage {
            copy_src: true,
            copy_dst: true,
            render_attachment: true,
            texture_binding: true,
        },
    };
    let cpu_texture = TextureDescriptor {
        width,
        height,
        format: PixelFormat::Rgba8UnormSrgb,
        usage: TextureUsage {
            copy_src: false,
            copy_dst: true,
            render_attachment: false,
            texture_binding: true,
        },
    };
    (render_texture, cpu_texture)
}

/// The per-frame registry: the copy stage's own ordered snapshot of the
/// readback requests.
pub struct ImageCopiers(pub Vec<ImageCopier>);

/// Snapshots the producer-side requests into the copy stage's registry, once
/// per frame, so the stage never iterates a collection the producer is
/// mutating. Order is kept; each entry shares its original's enable flag.
pub fn image_copy_extract(copiers: &Vec<ImageCopier>) -> (out: ImageCopiers)
    ensures
        out.0@ == copiers@,
{
    let mut snapshot: Vec<ImageCopier> = Vec::new();
    let mut i: usize = 0;
    while i < copiers.len()
        invariant
            i <= copiers@.len(),
            snapshot@ =~= copiers@.take(i as int),
        decreases copiers@.len() - i,
    {
        let c = copiers[i].clone();
        snapshot.push(c);
        i = i + 1;
    }
    proof {
        assert(snapshot@ =~= copiers@);
    }
    ImageCopiers(snapshot)
}

} // verus!

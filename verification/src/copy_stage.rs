use vstd::prelude::*;

use crate::copier::{ImageCopier, ImageCopiers};
use crate::layout::{padded_bytes_per_row, spec_block_width, spec_padded_bytes_per_row, PixelFormat};

verus! {

/// Label under which the copy stage hangs in the render graph.
#[derive(Debug, PartialEq, Eq, Clone, Hash)]
pub struct ImageCopy;

/// A texture that the producer has uploaded to the device this frame, as the
/// copy stage sees it: its asset identifier and its live extent and format.
#[derive(Clone, Copy, PartialEq, Eq, Structural, Debug)]
pub struct GpuImage {
    pub id: u64,
    pub width: u32,
    pub height: u32,
    pub format: PixelFormat,
}

/// A texture extent whose width covers whole compression blocks, as the
/// device demands of a copy.
pub open spec fn spec_gpu_image_wf(img: GpuImage) -> bool {
    img.width as int % spec_block_width(img.format) == 0
}

/// One texture-to-buffer copy, ready to encode: full source region, row
/// pitch padded to the copy alignment, no multi-layer stride.
#[derive(Clone, Copy, PartialEq, Eq, Structural, Debug)]
pub struct CopyCommand {
    pub src_image: u64,
    pub bytes_per_row: u64,
    pub width: u32,
    pub height: u32,
}

/// What the copy stage decided for one request of the registry, in registry
/// order.
#[derive(Clone, Copy, PartialEq, Eq, Structural, Debug)]
pub enum CopyOutcome {
    /// The request was disabled: skipped entirely, no command issued.
    Disabled,
    /// The source texture has no GPU-resident backing this frame: this
    /// request's frame is lost, no partial copy is issued.
    SourceNotReady,
    /// A copy command was issued for this request.
    Issued(CopyCommand),
}

/// The first uploaded texture carrying the wanted asset identifier.
pub open spec fn spec_find_image(images: Seq<GpuImage>, id: u64) -> Option<GpuImage>
    decreases images.len(),
{
    if images.len() == 0 {
        None
    } else if images[0].id == id {
        Some(images[0])
    } else {
        spec_find_image(images.drop_first(), id)
    }
}

/// A found image is one of the images searched.
pub proof fn lemma_find_image_is_element(images: Seq<GpuImage>, id: u64)
    requires
        spec_find_image(images, id) is Some,
    ensures
        exists|j: int|
            0 <= j < images.len() && images[j] == spec_find_image(images, id)->Some_0,
    decreases images.len(),
{
    if images[0].id == id {
        assert(images[0] == spec_find_image(images, id)->Some_0);
    } else {
        lemma_find_image_is_element(images.drop_first(), id);
        let j = choose|j: int|
            0 <= j < images.drop_first().len() && images.drop_first()[j] == spec_find_image(
                images.drop_first(),
                id,
            )->Some_0;
        assert(images[j + 1] == spec_find_image(images, id)->Some_0);
    }
}

/// The copy command encoded for a live texture: the full region, with the
/// row pitch the alignment rule gives for its width and format.
pub open spec fn spec_command_for(img: GpuImage) -> CopyCommand {
    CopyCommand {
        src_image: img.id,
        bytes_per_row: spec_padded_bytes_per_row(img.width as int, img.format) as u64,
        width: img.width,
        height: img.height,
    }
}

/// What the copy stage owes one request: a disabled request is skipped, an
/// enabled one without a resident texture fails as not ready, and an enabled
/// resident one gets exactly the aligned full-texture copy.
pub open spec fn spec_copy_outcome(c: ImageCopier, on: bool, images: Seq<GpuImage>) -> CopyOutcome {
    if !on {
        CopyOutcome::Disabled
    } else {
        match spec_find_image(images, c.spec_src_image()) {
            Some(img) => CopyOutcome::Issued(spec_command_for(img)),
            None => CopyOutcome::SourceNotReady,
        }
    }
}

/// A disabled request never yields a copy command — whatever textures are
/// resident this frame, it is skipped, and stays skipped until the flag is
/// raised again and a later frame sees it enabled.
pub proof fn lemma_disabled_request_issues_no_copy(c: ImageCopier, images: Seq<GpuImage>)
    ensures
        spec_copy_outcome(c, false, images) == CopyOutcome::Disabled,
{
}

/// The commands actually issued in a frame, in registry order.
pub open spec fn spec_issued_commands(out: Seq<CopyOutcome>) -> Seq<CopyCommand>
    decreases out.len(),
{
    if out.len() == 0 {
        Seq::empty()
    } else {
        let rest = spec_issued_commands(out.drop_last());
        match out.last() {
            CopyOutcome::Issued(cmd) => rest.push(cmd),
            _ => rest,
        }
    }
}

/// In a frame where every request is enabled and every source is resident,
/// the copy stage issues exactly one command per request, and the commands
/// stand in the same relative order as the requests in the registry.
pub proof fn lemma_all_enabled_issue_in_order(
    copiers: Seq<ImageCopier>,
    on: Seq<bool>,
    images: Seq<GpuImage>,
    out: Seq<CopyOutcome>,
)
    requires
        on.len() == copiers.len(),
        out.len() == copiers.len(),
        forall|i: int| 0 <= i < copiers.len() ==> on[i],
        forall|i: int|
            0 <= i < copiers.len() ==> spec_find_image(
                images,
                (#[trigger] copiers[i]).spec_src_image(),
            ) is Some,
        forall|i: int|
            0 <= i < out.len() ==> out[i] == spec_copy_outcome(copiers[i], on[i], images),
    ensures
        spec_issued_commands(out).len() == copiers.len(),
        forall|i: int|
            0 <= i < copiers.len() ==> spec_issued_commands(out)[i] == spec_command_for(
                spec_find_image(images, (#[trigger] copiers[i]).spec_src_image())->Some_0,
            ),
    decreases out.len(),
{
    if out.len() > 0 {
        let n = out.len() - 1;
        assert(forall|i: int| 0 <= i < n ==> copiers.drop_last()[i] == copiers[i]);
        assert(forall|i: int| 0 <= i < n ==> on.drop_last()[i] == on[i]);
        assert(forall|i: int| 0 <= i < n ==> out.drop_last()[i] == out[i]);
        lemma_all_enabled_issue_in_order(
            copiers.drop_last(),
            on.drop_last(),
            images,
            out.drop_last(),
        );
        assert(out[n] == spec_copy_outcome(copiers[n], on[n], images));
        let img = spec_find_image(images, copiers[n].spec_src_image())->Some_0;
        assert(out.last() == CopyOutcome::Issued(spec_command_for(img)));
    }
}

/// Looks a texture up by asset identifier, first match in upload order.
pub fn find_gpu_image(images: &Vec<GpuImage>, id: u64) -> (r: Option<GpuImage>)
    ensures
        r == spec_find_image(images@, id),
{
    let mut i: usize = 0;
    proof {
        assert(images@.skip(0) =~= images@);
    }
    while i < images.len()
        invariant
            i <= images@.len(),
            spec_find_image(images@, id) == spec_find_image(images@.skip(i as int), id),
        decreases images@.len() - i,
    {
        proof {
            assert(images@.skip(i as int)[0] == images@[i as int]);
            assert(images@.skip(i as int).drop_first() =~= images@.skip(i as int + 1));
        }
        if images[i].id == id {
            return Some(images[i]);
        }
        i = i + 1;
    }
    proof {
        assert(images@.skip(images@.len() as int).len() == 0);
    }
    None
}

/// Reads every request's shared enable flag once, producing the snapshot the
/// copy stage then works from for the whole frame.
pub fn snapshot_enabled(copiers: &ImageCopiers) -> (on: Vec<bool>)
    ensures
        on@.len() == copiers.0@.len(),
{
    let mut on: Vec<bool> = Vec::new();
    let mut i: usize = 0;
    while i < copiers.0.len()
        invariant
            i <= copiers.0@.len(),
            on@.len() == i,
        decreases copiers.0@.len() - i,
    {
        let e = (&copiers.0[i]).enabled();
        on.push(e);
        i = i + 1;
    }
    on
}

/// The copy stage of one frame.
#[derive(Default)]
pub struct ImageCopyNode;

impl ImageCopyNode {
    /// Decides, for every request of the registry in order, whether to issue
    /// a copy command this frame, and with what layout. `on` is the frame's
    /// snapshot of the enable flags; `gpu_images` are the textures resident
    /// on the device. Encoding and submitting the issued commands is the
    /// device's side and changes nothing decided here.
    pub fn run(
        &self,
        copiers: &ImageCopiers,
        on: &Vec<bool>,
        gpu_images: &Vec<GpuImage>,
    ) -> (out: Vec<CopyOutcome>)
        requires
            on@.len() == copiers.0@.len(),
            forall|j: int| 0 <= j < gpu_images@.len() ==> spec_gpu_image_wf(#[trigger] gpu_images@[j]),
        ensures
            out@.len() == copiers.0@.len(),
            forall|i: int|
                0 <= i < out@.len() ==> out@[i] == spec_copy_outcome(
                    copiers.0@[i],
                    on@[i],
                    gpu_images@,
                ),
    {
        let mut out: Vec<CopyOutcome> = Vec::new();
        let mut i: usize = 0;
        while i < copiers.0.len()
            invariant
                i <= copiers.0@.len(),
                on@.len() == copiers.0@.len(),
                forall|j: int|
                    0 <= j < gpu_images@.len() ==> spec_gpu_image_wf(#[trigger] gpu_images@[j]),
                out@.len() == i,
                forall|k: int|
                    0 <= k < i ==> out@[k] == spec_copy_outcome(
                        copiers.0@[k],
                        on@[k],
                        gpu_images@,
                    ),
            decreases copiers.0@.len() - i,
        {
            if !on[i] {
                out.push(CopyOutcome::Disabled);
            } else {
                let src = (&copiers.0[i]).src_image();
                match find_gpu_image(gpu_images, src) {
                    Some(img) => {
                        proof {
                            lemma_find_image_is_element(gpu_images@, src);
                        }
                        let bytes_per_row = padded_bytes_per_row(img.width, img.format);
                        out.push(
                            CopyOutcome::Issued(
                                CopyCommand {
                                    src_image: img.id,
                                    bytes_per_row,
                                    width: img.width,
                                    height: img.height,
                                },
                            ),
                        );
                    },
                    None => {
                        out.push(CopyOutcome::SourceNotReady);
                    },
                }
            }
            i = i + 1;
        }
        out
    }
}

} // verus!

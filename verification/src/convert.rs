use crate::image::{ImageBuffer, ImageFormat};
use crate::options::TOLERANCE_MAX_CENTI;
use vstd::prelude::*;

verus! {

/// What the format normalizer did, for the driver to mirror on the real
/// image: on `ConvertedToPng`, re-tag the image as PNG.
#[derive(Clone, Copy, Debug, PartialEq, Eq, Structural)]
pub enum ConvertAction {
    /// Already the animation-capable format; left as it is.
    SkippedGif,
    /// No background erasure will run, so no alpha channel is needed; the
    /// re-encode is skipped.
    SkippedNoErasure,
    /// Re-tagged as the transparency-capable still format.
    ConvertedToPng,
}

/// The format the normalizer leaves the image in: GIF stays GIF; any other
/// format stays as it is when no erasure will run, and becomes PNG when
/// flood-fill erasure needs an alpha channel.
pub open spec fn normalized_format(format: ImageFormat, tolerance: u32) -> ImageFormat {
    if format is Gif {
        ImageFormat::Gif
    } else if tolerance == 0 {
        format
    } else {
        ImageFormat::Png
    }
}

/// Normalize the working image's format tag ahead of background erasure.
/// Only the format tag changes; the frames are untouched.
pub fn convert(buf: &mut ImageBuffer, tolerance: u32) -> (action: ConvertAction)
    requires
        tolerance <= TOLERANCE_MAX_CENTI,
    ensures
        final(buf).frames == old(buf).frames,
        final(buf).format == normalized_format(old(buf).format, tolerance),
        action is SkippedGif <==> old(buf).format is Gif,
        action is SkippedNoErasure <==> (!(old(buf).format is Gif) && tolerance == 0),
        action is ConvertedToPng <==> (!(old(buf).format is Gif) && tolerance > 0),
{
    if buf.format == ImageFormat::Gif {
        ConvertAction::SkippedGif
    } else if tolerance == 0 {
        ConvertAction::SkippedNoErasure
    } else {
        buf.format = ImageFormat::Png;
        ConvertAction::ConvertedToPng
    }
}

} // verus!

use crate::convert::{convert, normalized_format, ConvertAction};
use crate::errors::UcchError;
use crate::filter::{filter, fuzz_of, FilterAction};
use crate::image::ImageBuffer;
use crate::options::OperationOptions;
use crate::squarify::{
    crop_needed, cropped_buffer, out_of_bounds_message, partial_crop_message, requested_region,
    squarify, squarify_accepts, SquarifyAction,
};
use vstd::prelude::*;

verus! {

/// The decisions of the three up-front pipeline stages, in the order the
/// driver must mirror them on the real image. The downscale stage cannot be
/// planned ahead: it depends on the serialized size after each pass, so the
/// driver consults `downscale::downscale_step` between passes instead.
#[derive(Clone, Copy, Debug, PartialEq, Eq, Structural)]
pub struct StagePlan {
    pub convert: ConvertAction,
    pub squarify: SquarifyAction,
    pub filter: FilterAction,
}

/// Run the format normalizer, the squarifier and the background eraser on
/// the working image, in the pipeline's fixed order, short-circuiting on the
/// first failure. On success the image is square and its format tag is
/// normalized; on failure the frames are untouched (the format tag may
/// already be normalized — the driver does not roll back).
pub fn plan_stages(buf: &mut ImageBuffer, opts: &OperationOptions) -> (r: Result<
    StagePlan,
    UcchError,
>)
    requires
        old(buf).wf(),
        opts.wf(),
    ensures
        final(buf).frame_count() == old(buf).frame_count(),
        final(buf).format == normalized_format(old(buf).format, opts.tolerance),
        r is Ok <==> squarify_accepts(*opts, *old(buf)),
        r matches Ok(p) ==> {
            &&& final(buf).wf()
            &&& final(buf).is_square()
            &&& (p.convert is SkippedGif <==> old(buf).format is Gif)
            &&& (p.convert is SkippedNoErasure <==> (!(old(buf).format is Gif) && opts.tolerance
                == 0))
            &&& (p.convert is ConvertedToPng <==> (!(old(buf).format is Gif) && opts.tolerance
                > 0))
            &&& (opts.tolerance == 0 <==> p.filter is Skipped)
            &&& (opts.tolerance > 0 <==> (p.filter matches FilterAction::FloodFill { fuzz }
                && fuzz == fuzz_of(opts.tolerance)))
            &&& (!crop_needed(*opts, *old(buf)) ==> p.squarify is Skipped && final(buf).frames
                == old(buf).frames)
            &&& (crop_needed(*opts, *old(buf)) ==> {
                let region = requested_region(
                    *opts,
                    old(buf).spec_width() as int,
                    old(buf).spec_height() as int,
                );
                &&& p.squarify == (SquarifyAction::Cropped {
                    size: region.size as usize,
                    x_offset: region.x as usize,
                    y_offset: region.y as usize,
                })
                &&& final(buf).spec_width() == region.size
                &&& cropped_buffer(*old(buf), *final(buf), region.size)
            })
        },
        r matches Err(e) ==> final(buf).frames == old(buf).frames && (e.spec_message()
            == partial_crop_message() || e.spec_message() == out_of_bounds_message()),
        opts.partial_crop() ==> (r matches Err(e) && e.spec_message() == partial_crop_message()),
        !opts.partial_crop() && !squarify_accepts(*opts, *old(buf)) ==> (r matches Err(e)
            && e.spec_message() == out_of_bounds_message()),
{
    let convert_action = convert(buf, opts.tolerance);
    let squarify_action = match squarify(buf, opts) {
        Ok(action) => action,
        Err(e) => {
            return Err(e);
        },
    };
    let filter_action = filter(opts.tolerance);
    Ok(StagePlan { convert: convert_action, squarify: squarify_action, filter: filter_action })
}

} // verus!

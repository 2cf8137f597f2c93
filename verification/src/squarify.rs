use crate::errors::UcchError;
use crate::image::{Frame, ImageBuffer, Page};
use crate::options::OperationOptions;
use vstd::prelude::*;

verus! {

/// A square crop region: `size` is the side length, `x`/`y` the offset of
/// the region's top-left corner within the image. Ghost-level description;
/// the executable counterpart travels in `SquarifyAction::Cropped`.
pub struct CropRegion {
    pub x: int,
    pub y: int,
    pub size: int,
}

/// What the squarifier did, for the driver to mirror on the real image: on
/// `Cropped`, crop every frame to the returned region and reset its page
/// record to a `size`-by-`size` canvas at offset zero.
#[derive(Clone, Copy, Debug, PartialEq, Eq, Structural)]
pub enum SquarifyAction {
    Skipped,
    Cropped { size: usize, x_offset: usize, y_offset: usize },
}

/// Message of the error raised on a partial crop specification.
pub open spec fn partial_crop_message() -> Seq<char> {
    "If either the X or Y coordinate or the size is given for the crop operation, all of them need to be present."@
}

/// Message of the error raised on a crop region that leaves the image.
pub open spec fn out_of_bounds_message() -> Seq<char> {
    "Invalid crop size, cropping would go outside the boundary of the image."@
}

/// The crop region the options ask for on a `width`-by-`height` image:
/// `size` defaults to the smaller dimension, the offsets default to
/// centering `size` within the respective dimension. Meaningful only when
/// the options are not a partial crop specification.
pub open spec fn requested_region(opts: OperationOptions, width: int, height: int) -> CropRegion {
    let size = match opts.crop_size {
        Some(s) => s as int,
        None => if width <= height {
            width
        } else {
            height
        },
    };
    let x = match opts.crop_x {
        Some(v) => v as int,
        None => (width - size) / 2,
    };
    let y = match opts.crop_y {
        Some(v) => v as int,
        None => (height - size) / 2,
    };
    CropRegion { x, y, size }
}

/// The region is a non-empty square lying entirely inside a
/// `width`-by-`height` image.
pub open spec fn region_fits(r: CropRegion, width: int, height: int) -> bool {
    &&& 0 <= r.x
    &&& 0 <= r.y
    &&& 1 <= r.size
    &&& r.x + r.size <= width
    &&& r.y + r.size <= height
}

/// The squarifier must crop: the image is not already square, or an
/// explicit crop was requested.
pub open spec fn crop_needed(opts: OperationOptions, buf: ImageBuffer) -> bool {
    !(buf.is_square() && !opts.crop_any())
}

/// The options pass the squarifier's validation on this buffer: they are
/// not a partial crop specification, and whenever a crop must happen, the
/// requested region fits inside the image.
pub open spec fn squarify_accepts(opts: OperationOptions, buf: ImageBuffer) -> bool {
    &&& !opts.partial_crop()
    &&& (crop_needed(opts, buf) ==> region_fits(
        requested_region(opts, buf.spec_width() as int, buf.spec_height() as int),
        buf.spec_width() as int,
        buf.spec_height() as int,
    ))
}

/// The frames after a successful crop to `region`: same frame count, every
/// frame `size`-by-`size` with its page record reset.
pub open spec fn cropped_buffer(old_buf: ImageBuffer, new_buf: ImageBuffer, size: int) -> bool {
    &&& new_buf.frame_count() == old_buf.frame_count()
    &&& forall|i: int|
        0 <= i < new_buf.frames@.len() ==> (#[trigger] new_buf.frames@[i]) == (Frame {
            width: size as usize,
            height: size as usize,
            page: Page { width: size as usize, height: size as usize, x: 0, y: 0 },
        })
}

/// Law: an explicit crop whose square region lies inside the image passes
/// the squarifier's validation, and the region it applies is exactly the
/// requested one — so by `squarify`'s contract every frame ends up with
/// dimensions `size`-by-`size`.
pub proof fn lemma_explicit_crop_accepted(
    opts: OperationOptions,
    buf: ImageBuffer,
    x: isize,
    y: isize,
    size: isize,
)
    requires
        buf.wf(),
        opts.crop_x == Some(x),
        opts.crop_y == Some(y),
        opts.crop_size == Some(size),
        0 <= x,
        0 <= y,
        1 <= size,
        x + size <= buf.spec_width(),
        y + size <= buf.spec_height(),
    ensures
        squarify_accepts(opts, buf),
        requested_region(opts, buf.spec_width() as int, buf.spec_height() as int) == (CropRegion {
            x: x as int,
            y: y as int,
            size: size as int,
        }),
{
}

/// Law: when no crop field is given, the squarifier never fails — the
/// automatic crop takes the smaller dimension and centers it, which always
/// lies inside the image.
pub proof fn lemma_automatic_crop_accepted(opts: OperationOptions, buf: ImageBuffer)
    requires
        buf.wf(),
        !opts.crop_any(),
    ensures
        squarify_accepts(opts, buf),
{
}

/// Squarify the working image.
///
/// Validates the crop options, then either skips (image already square and
/// no explicit crop requested), or computes the crop region, validates it
/// against the image bounds, and applies the identical crop to every frame,
/// resetting each frame's page record. A partial crop specification or a
/// region leaving the image is rejected with an invalid-argument error and
/// the buffer is left untouched — never clamped.
pub fn squarify(buf: &mut ImageBuffer, opts: &OperationOptions) -> (r: Result<
    SquarifyAction,
    UcchError,
>)
    requires
        old(buf).wf(),
    ensures
        final(buf).format == old(buf).format,
        final(buf).frame_count() == old(buf).frame_count(),
        r is Ok <==> squarify_accepts(*opts, *old(buf)),
        r is Ok && !crop_needed(*opts, *old(buf)) ==> r == Ok::<SquarifyAction, UcchError>(
            SquarifyAction::Skipped,
        ) && *final(buf) == *old(buf),
        ({
            let region = requested_region(
                *opts,
                old(buf).spec_width() as int,
                old(buf).spec_height() as int,
            );
            r is Ok && crop_needed(*opts, *old(buf)) ==> {
                &&& r == Ok::<SquarifyAction, UcchError>(
                    SquarifyAction::Cropped {
                        size: region.size as usize,
                        x_offset: region.x as usize,
                        y_offset: region.y as usize,
                    },
                )
                &&& final(buf).wf()
                &&& final(buf).spec_width() == region.size
                &&& final(buf).spec_height() == region.size
                &&& cropped_buffer(*old(buf), *final(buf), region.size)
            }
        }),
        opts.partial_crop() ==> (r matches Err(e) && e.spec_message() == partial_crop_message()
            && *final(buf) == *old(buf)),
        !opts.partial_crop() && !squarify_accepts(*opts, *old(buf)) ==> (r matches Err(e)
            && e.spec_message() == out_of_bounds_message() && *final(buf) == *old(buf)),
{
    let any = opts.crop_x.is_some() || opts.crop_y.is_some() || opts.crop_size.is_some();
    let all = opts.crop_x.is_some() && opts.crop_y.is_some() && opts.crop_size.is_some();
    if any && !all {
        return Err(
            UcchError::invalid_argument(
                "If either the X or Y coordinate or the size is given for the crop operation, all of them need to be present.",
            ),
        );
    }
    let width = buf.width();
    let height = buf.height();
    if width == height && !any {
        return Ok(SquarifyAction::Skipped);
    }
    let w: i128 = width as i128;
    let h: i128 = height as i128;
    let size: i128 = match opts.crop_size {
        Some(s) => s as i128,
        None => if w <= h {
            w
        } else {
            h
        },
    };
    let x_offset: i128 = match opts.crop_x {
        Some(v) => v as i128,
        None => (w - size) / 2,
    };
    let y_offset: i128 = match opts.crop_y {
        Some(v) => v as i128,
        None => (h - size) / 2,
    };
    if !(0 <= x_offset && 0 <= y_offset && 1 <= size && x_offset <= w - size && y_offset <= h
        - size) {
        return Err(
            UcchError::invalid_argument(
                "Invalid crop size, cropping would go outside the boundary of the image.",
            ),
        );
    }
    let size_u: usize = size as usize;
    let x_u: usize = x_offset as usize;
    let y_u: usize = y_offset as usize;
    let frame_count = buf.frames.len();
    let mut frames: Vec<Frame> = Vec::new();
    let mut i: usize = 0;
    while i < frame_count
        invariant
            i <= frame_count,
            frames@.len() == i as int,
            forall|j: int|
                0 <= j < i ==> (#[trigger] frames@[j]) == (Frame {
                    width: size_u,
                    height: size_u,
                    page: Page { width: size_u, height: size_u, x: 0, y: 0 },
                }),
        decreases frame_count - i,
    {
        frames.push(
            Frame {
                width: size_u,
                height: size_u,
                page: Page { width: size_u, height: size_u, x: 0, y: 0 },
            },
        );
        i = i + 1;
    }
    buf.frames = frames;
    Ok(SquarifyAction::Cropped { size: size_u, x_offset: x_u, y_offset: y_u })
}

} // verus!

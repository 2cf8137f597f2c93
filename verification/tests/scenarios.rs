use ucch::convert::ConvertAction;
use ucch::downscale::{downscale_step, SIZE_BUDGET};
use ucch::errors::UcchError;
use ucch::filter::{FilterAction, FUZZ_SCALE};
use ucch::image::{ImageBuffer, ImageFormat};
use ucch::options::OperationOptions;
use ucch::pipeline::plan_stages;
use ucch::squarify::SquarifyAction;

fn options(
    tolerance: u32,
    crop_x: Option<isize>,
    crop_y: Option<isize>,
    crop_size: Option<isize>,
) -> OperationOptions {
    OperationOptions {
        tolerance,
        crop_x,
        crop_y,
        crop_size,
    }
}

#[test]
fn opaque_landscape_still_image_is_squared_and_fits_the_budget() {
    // A 1024x768 opaque JPEG-like input, no tolerance, no explicit crop.
    let mut buffer = ImageBuffer::new(ImageFormat::Other, 1024, 768, 1);
    let plan = plan_stages(&mut buffer, &options(0, None, None, None)).unwrap();

    // No erasure will run, so no transparency is added and the format stays
    // as it was.
    assert_eq!(plan.convert, ConvertAction::SkippedNoErasure);
    assert_eq!(buffer.format, ImageFormat::Other);
    assert_eq!(plan.filter, FilterAction::Skipped);

    // The automatic crop squares the image to its smaller dimension.
    assert_eq!(
        plan.squarify,
        SquarifyAction::Cropped {
            size: 768,
            x_offset: 128,
            y_offset: 0
        }
    );
    assert_eq!(buffer.frames[0].width, 768);
    assert_eq!(buffer.frames[0].height, 768);

    // The downscale loop runs until the serialized size is at or under the
    // budget; emulate a serializer shrinking with the pixel count.
    let mut size: usize = 900_000;
    let mut passes = 0;
    while let Some(permille) = downscale_step(size) {
        size = ((size as u64) * (permille as u64) * (permille as u64) / 1_000_000) as usize;
        passes += 1;
        assert!(passes < 1000, "downscale loop failed to converge");
    }
    assert!(size <= SIZE_BUDGET);
}

#[test]
fn square_animation_is_flood_filled_frame_by_frame() {
    // A 500x500 GIF-like multi-frame input with tolerance 20 percent.
    let mut buffer = ImageBuffer::new(ImageFormat::Gif, 500, 500, 6);
    let plan = plan_stages(&mut buffer, &options(2000, None, None, None)).unwrap();

    // Already the animation-capable format: conversion is skipped.
    assert_eq!(plan.convert, ConvertAction::SkippedGif);
    assert_eq!(buffer.format, ImageFormat::Gif);

    // Already square: squarification is skipped and every frame keeps its
    // geometry.
    assert_eq!(plan.squarify, SquarifyAction::Skipped);
    assert_eq!(buffer.frames.len(), 6);
    for frame in &buffer.frames {
        assert_eq!(frame.width, 500);
        assert_eq!(frame.height, 500);
    }

    // Every frame is flood-filled from (0, 0) with fuzz
    // 20 * 0.01 * 65535 = 13107.
    match plan.filter {
        FilterAction::FloodFill { fuzz } => assert_eq!(fuzz, 13107 * FUZZ_SCALE),
        FilterAction::Skipped => panic!("expected a flood-fill pass"),
    }

    // Under budget: the downscaler decides a no-op.
    assert_eq!(downscale_step(120_000), None);
}

#[test]
fn oversized_explicit_crop_fails_the_pipeline() {
    // An explicit crop (x=10, y=10, size=2000) on a 1000x1000 image.
    let mut buffer = ImageBuffer::new(ImageFormat::Other, 1000, 1000, 1);
    let result = plan_stages(&mut buffer, &options(0, Some(10), Some(10), Some(2000)));
    match result {
        Err(UcchError::InvalidArgument(message)) => {
            assert!(message.contains("outside the boundary"));
        }
        Ok(_) => panic!("expected an invalid-argument error"),
    }
    // The frames are untouched.
    assert_eq!(buffer.frames[0].width, 1000);
    assert_eq!(buffer.frames[0].height, 1000);
}

#[test]
fn failed_squarification_keeps_the_normalized_format() {
    // The format normalizer runs before the squarifier and is not rolled
    // back when a later stage fails.
    let mut buffer = ImageBuffer::new(ImageFormat::Other, 100, 100, 1);
    let result = plan_stages(&mut buffer, &options(1000, Some(1), None, None));
    match result {
        Err(UcchError::InvalidArgument(message)) => {
            assert!(message.contains("all of them need to be present"));
        }
        Ok(_) => panic!("expected an invalid-argument error"),
    }
    assert_eq!(buffer.format, ImageFormat::Png);
    assert_eq!(buffer.frames[0].width, 100);
}

#[test]
fn successful_pipeline_yields_a_square_buffer() {
    let mut buffer = ImageBuffer::new(ImageFormat::Other, 320, 200, 2);
    let plan = plan_stages(&mut buffer, &options(2500, None, None, None)).unwrap();
    assert_eq!(plan.convert, ConvertAction::ConvertedToPng);
    assert_eq!(buffer.format, ImageFormat::Png);
    assert_eq!(
        plan.squarify,
        SquarifyAction::Cropped {
            size: 200,
            x_offset: 60,
            y_offset: 0
        }
    );
    match plan.filter {
        FilterAction::FloodFill { fuzz } => assert_eq!(fuzz, 2500 * 65535),
        FilterAction::Skipped => panic!("expected a flood-fill pass"),
    }
    for frame in &buffer.frames {
        assert_eq!(frame.width, 200);
        assert_eq!(frame.height, 200);
    }
}

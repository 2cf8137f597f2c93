//! Core of an image-to-emoji converter: a four-stage pipeline that turns an
//! arbitrary raster image (still or animated) into a square,
//! background-erased, size-budgeted image.
//!
//! The stages — format normalization, squarification, tolerance-based
//! background erasure and downscale-to-budget — are verified here over a
//! geometric model of the working image ([`image::ImageBuffer`]). Decoding,
//! pixel work and encoding belong to an external image library; every stage
//! returns the action the surrounding driver must mirror on the real image,
//! and the driver consults [`downscale::downscale_step`] between passes of
//! the downscale loop.

pub mod convert;
pub mod downscale;
pub mod errors;
pub mod filter;
pub mod image;
pub mod options;
pub mod pipeline;
pub mod squarify;

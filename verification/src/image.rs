use vstd::prelude::*;

verus! {

/// Logical format tag of a decoded image, as far as the pipeline's decisions
/// depend on it. `Gif` is the animation-capable format, `Png` the
/// transparency-capable still format; every other decoded format is `Other`.
#[derive(Clone, Copy, Debug, PartialEq, Eq, Structural)]
pub enum ImageFormat {
    Gif,
    Png,
    Other,
}

/// Page (canvas) metadata of one frame: the virtual canvas geometry and the
/// frame's offset within it, as kept by the underlying image library.
#[derive(Clone, Copy, Debug, PartialEq, Eq, Structural)]
pub struct Page {
    pub width: usize,
    pub height: usize,
    pub x: isize,
    pub y: isize,
}

/// Geometry of one frame of the working image.
#[derive(Clone, Copy, Debug, PartialEq, Eq, Structural)]
pub struct Frame {
    pub width: usize,
    pub height: usize,
    pub page: Page,
}

/// The working image: an ordered, non-empty sequence of frames sharing one
/// format tag. The pixel data itself lives in the underlying image library;
/// the pipeline's decisions depend only on the geometry and format modelled
/// here, and every stage reports the action the driver must mirror on the
/// real image.
pub struct ImageBuffer {
    pub format: ImageFormat,
    pub frames: Vec<Frame>,
}

impl ImageBuffer {
    /// Well-formedness: at least one frame, and all frames share the same
    /// non-zero width and height.
    pub open spec fn wf(self) -> bool {
        &&& self.frames@.len() >= 1
        &&& self.frames@[0].width >= 1
        &&& self.frames@[0].height >= 1
        &&& forall|i: int|
            0 <= i < self.frames@.len() ==> (#[trigger] self.frames@[i]).width
                == self.frames@[0].width && self.frames@[i].height == self.frames@[0].height
    }

    /// Shared width of all frames.
    pub open spec fn spec_width(self) -> usize {
        self.frames@[0].width
    }

    /// Shared height of all frames.
    pub open spec fn spec_height(self) -> usize {
        self.frames@[0].height
    }

    /// Number of frames.
    pub open spec fn frame_count(self) -> nat {
        self.frames@.len()
    }

    pub open spec fn is_square(self) -> bool {
        self.spec_width() == self.spec_height()
    }

    /// Build a buffer of `frame_count` frames of identical geometry, each
    /// with a full-canvas page record, as a freshly decoded image has.
    pub fn new(format: ImageFormat, width: usize, height: usize, frame_count: usize) -> (b:
        ImageBuffer)
        requires
            width >= 1,
            height >= 1,
            frame_count >= 1,
        ensures
            b.wf(),
            b.format == format,
            b.spec_width() == width,
            b.spec_height() == height,
            b.frame_count() == frame_count,
            forall|i: int|
                0 <= i < frame_count ==> (#[trigger] b.frames@[i]) == (Frame {
                    width,
                    height,
                    page: Page { width, height, x: 0, y: 0 },
                }),
    {
        let mut frames: Vec<Frame> = Vec::new();
        let mut i: usize = 0;
        while i < frame_count
            invariant
                i <= frame_count,
                frames@.len() == i as int,
                forall|j: int|
                    0 <= j < i ==> (#[trigger] frames@[j]) == (Frame {
                        width,
                        height,
                        page: Page { width, height, x: 0, y: 0 },
                    }),
            decreases frame_count - i,
        {
            frames.push(Frame { width, height, page: Page { width, height, x: 0, y: 0 } });
            i = i + 1;
        }
        ImageBuffer { format, frames }
    }

    pub fn width(&self) -> (w: usize)
        requires
            self.wf(),
        ensures
            w == self.spec_width(),
    {
        self.frames[0].width
    }

    pub fn height(&self) -> (h: usize)
        requires
            self.wf(),
        ensures
            h == self.spec_height(),
    {
        self.frames[0].height
    }
}

} // verus!

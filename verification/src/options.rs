use vstd::prelude::*;

verus! {

/// Largest representable tolerance: 100 percent, stored in hundredths of a
/// percent.
pub const TOLERANCE_MAX_CENTI: u32 = 10000;

/// Immutable per-run parameter set.
///
/// `tolerance` is the background-erasure tolerance in hundredths of a
/// percent (fixed point with two decimal places), so the admissible range
/// 0–100 percent is `0..=10000`; `0` means "no background erasure".
///
/// The three crop fields must be given all together or not at all; a partial
/// combination is an invalid configuration that the squarifier rejects.
#[derive(Clone, Copy, Debug)]
pub struct OperationOptions {
    pub tolerance: u32,
    pub crop_x: Option<isize>,
    pub crop_y: Option<isize>,
    pub crop_size: Option<isize>,
}

impl OperationOptions {
    /// The tolerance lies within 0–100 percent.
    pub open spec fn wf(self) -> bool {
        self.tolerance <= TOLERANCE_MAX_CENTI
    }

    /// At least one of the crop fields is given.
    pub open spec fn crop_any(self) -> bool {
        self.crop_x is Some || self.crop_y is Some || self.crop_size is Some
    }

    /// All three crop fields are given.
    pub open spec fn crop_all(self) -> bool {
        self.crop_x is Some && self.crop_y is Some && self.crop_size is Some
    }

    /// Exactly one or two of the crop fields are given: the invalid partial
    /// combination.
    pub open spec fn partial_crop(self) -> bool {
        self.crop_any() && !self.crop_all()
    }
}

} // verus!

use crate::options::TOLERANCE_MAX_CENTI;
use vstd::prelude::*;

verus! {

/// Fixed-point scale of the fuzz threshold: fuzz values carry four decimal
/// places, so a stored value `f` stands for the real threshold `f / 10000`.
pub const FUZZ_SCALE: u64 = 10000;

/// What the background eraser decided, for the driver to mirror on the real
/// image: on `FloodFill`, flood-fill-paint the fully transparent color from
/// the top-left pixel of every frame, each frame seeded independently, with
/// the carried fuzz threshold.
#[derive(Clone, Copy, Debug, PartialEq, Eq, Structural)]
pub enum FilterAction {
    /// Zero tolerance: background removal is skipped entirely.
    Skipped,
    /// Erase with this color-distance threshold, in `1 / FUZZ_SCALE` units
    /// of the library's root-mean-squared channel-difference metric
    /// (channels scaled to the 16-bit range 0–65535).
    FloodFill { fuzz: u64 },
}

/// The fuzz threshold a tolerance converts to, in `1 / FUZZ_SCALE` units.
///
/// A tolerance of one percent is one hundredth of the full 16-bit channel
/// range, so with the tolerance in hundredths of a percent the threshold is
/// `tolerance * 0.01 * 65535` — which in fixed point is exactly
/// `tolerance * 65535`.
pub open spec fn fuzz_of(tolerance: u32) -> int {
    tolerance * 65535
}

/// Decide the background-erasure pass: skip at zero tolerance, otherwise
/// convert the tolerance into the flood fill's fuzz threshold.
pub fn filter(tolerance: u32) -> (action: FilterAction)
    requires
        tolerance <= TOLERANCE_MAX_CENTI,
    ensures
        tolerance == 0 <==> action is Skipped,
        tolerance > 0 <==> (action matches FilterAction::FloodFill { fuzz } && fuzz == fuzz_of(
            tolerance,
        )),
{
    if tolerance == 0 {
        FilterAction::Skipped
    } else {
        FilterAction::FloodFill { fuzz: (tolerance as u64) * 65535 }
    }
}

} // verus!

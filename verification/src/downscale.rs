use vstd::prelude::*;

verus! {

/// The size budget: largest acceptable serialized byte size of the output.
pub const SIZE_BUDGET: usize = 128000;

/// Serialized sizes up to this get the gentle shrink, sizes up to
/// `MODERATE_LIMIT` the moderate one, larger sizes the aggressive halving.
pub const GENTLE_LIMIT: usize = 256000;

pub const MODERATE_LIMIT: usize = 1000000;

/// Scale factors in permille of the linear dimensions: a gentle shrink near
/// the budget avoids over-shrinking, an aggressive halving far above it.
pub const SCALE_GENTLE: u32 = 950;

pub const SCALE_MODERATE: u32 = 900;

pub const SCALE_AGGRESSIVE: u32 = 500;

/// Decide one downscale pass from the current serialized byte size: `None`
/// when the size is within the budget and the image must not be touched,
/// otherwise the permille scale factor to apply to both dimensions of every
/// frame before re-serializing and deciding again.
pub fn downscale_step(size: usize) -> (r: Option<u32>)
    ensures
        size <= SIZE_BUDGET <==> r is None,
        SIZE_BUDGET < size <= GENTLE_LIMIT ==> r == Some(SCALE_GENTLE),
        GENTLE_LIMIT < size <= MODERATE_LIMIT ==> r == Some(SCALE_MODERATE),
        size > MODERATE_LIMIT ==> r == Some(SCALE_AGGRESSIVE),
{
    if size <= SIZE_BUDGET {
        None
    } else if size <= GENTLE_LIMIT {
        Some(SCALE_GENTLE)
    } else if size <= MODERATE_LIMIT {
        Some(SCALE_MODERATE)
    } else {
        Some(SCALE_AGGRESSIVE)
    }
}

/// Convergence of the downscale loop: a run of passes that continues only
/// while the serialized size is over the budget, and in which every pass
/// strictly shrinks the serialized size, can only be finite — it ends after
/// at most `first size - SIZE_BUDGET` passes. The strict shrink is what the
/// serializer guarantees for any realistic codec once the linear dimensions
/// shrink; the loop itself adds no iteration bound.
pub proof fn lemma_downscale_run_bounded(sizes: Seq<int>)
    requires
        sizes.len() >= 1,
        forall|i: int|
            0 <= i < sizes.len() - 1 ==> (#[trigger] sizes[i]) > SIZE_BUDGET && sizes[i + 1]
                < sizes[i],
    ensures
        sizes.len() <= 1 + (if sizes[0] > SIZE_BUDGET {
            sizes[0] - SIZE_BUDGET
        } else {
            0
        }),
    decreases sizes.len(),
{
    if sizes.len() >= 2 {
        let rest = sizes.subrange(1, sizes.len() as int);
        assert(forall|i: int|
            0 <= i < rest.len() - 1 ==> (#[trigger] rest[i]) > SIZE_BUDGET && rest[i + 1]
                < rest[i]) by {
            assert(forall|i: int| 0 <= i < rest.len() ==> rest[i] == sizes[i + 1]);
        }
        lemma_downscale_run_bounded(rest);
    }
}

} // verus!

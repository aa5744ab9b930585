use vstd::prelude::*;

verus! {

/// The square footprint of one pixel that camera rays are jittered across:
/// offsets in `[-0.5, 0.5)` along both image axes.
#[derive(Debug, Clone, Copy, PartialEq, Eq)]
pub struct Square;

} // verus!

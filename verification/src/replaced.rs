//! Opaque replaced content: layout never looks inside it, it only sizes a
//! box around its intrinsic size and hands the paint primitive through.

use vstd::prelude::*;

use crate::geom::physical;
use crate::length::Length;

verus! {

/// Already-decoded replaced content (an image, a video poster, …): its
/// intrinsic physical size and an opaque handle for the paint consumer.
#[derive(Clone, Copy, Debug, PartialEq, Eq, Structural)]
pub struct ReplacedContent {
    /// The intrinsic size, in physical coordinates, as the decoder reported
    /// it.
    pub intrinsic_size: physical::Vec2<Length>,
    /// An opaque handle to the decoded data, for the paint consumer.
    pub image_key: u64,
}

impl ReplacedContent {
    /// Replaced content is meaningful only with a non-negative intrinsic
    /// size.
    pub open spec fn wf(&self) -> bool {
        self.intrinsic_size.x >= 0 && self.intrinsic_size.y >= 0
    }
}

} // verus!

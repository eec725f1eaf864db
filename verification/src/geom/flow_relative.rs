//! Flow-relative geometry: the inline axis follows the text direction, the
//! block axis follows the stacking of lines and blocks.  Which physical axis
//! each maps to depends on a writing mode and direction.

use vstd::prelude::*;

verus! {

/// A flow-relative offset or size.
#[derive(Clone, Copy, Debug, PartialEq, Eq, Structural)]
pub struct Vec2<T> {
    pub inline: T,
    pub block: T,
}

/// A flow-relative rectangle: its start corner and its size.
#[derive(Clone, Copy, Debug, PartialEq, Eq, Structural)]
pub struct Rect<T> {
    pub start_corner: Vec2<T>,
    pub size: Vec2<T>,
}

/// One value for each of the four flow-relative edges.
#[derive(Clone, Copy, Debug, PartialEq, Eq, Structural)]
pub struct Sides<T> {
    pub inline_start: T,
    pub inline_end: T,
    pub block_start: T,
    pub block_end: T,
}

} // verus!

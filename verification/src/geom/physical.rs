//! Screen-aligned geometry: x grows rightward, y grows downward.

use vstd::prelude::*;

verus! {

/// A physical point or size.
#[derive(Clone, Copy, Debug, PartialEq, Eq, Structural)]
pub struct Vec2<T> {
    pub x: T,
    pub y: T,
}

/// A physical rectangle: its top-left corner and its size.
#[derive(Clone, Copy, Debug, PartialEq, Eq, Structural)]
pub struct Rect<T> {
    pub top_left: Vec2<T>,
    pub size: Vec2<T>,
}

/// One value for each of the four physical edges.
#[derive(Clone, Copy, Debug, PartialEq, Eq, Structural)]
pub struct Sides<T> {
    pub top: T,
    pub left: T,
    pub bottom: T,
    pub right: T,
}

} // verus!

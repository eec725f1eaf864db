//! A block-layout core: it turns a tree of styled content nodes into a tree of
//! positioned, sized, paintable fragments, following the CSS visual formatting
//! model.  The pieces are the flow-relative/physical coordinate system, the
//! fragment data model with its margin-collapsing value type, the
//! formatting-context layer, the block-formatting-context layout algorithm
//! (margin collapsing, containing-block resolution, deferred absolute
//! positioning with a parallel fan-out), and the paint-order walk that feeds a
//! display-list sink.

pub mod display_list;
pub mod dom_traversal;
pub mod flow;
pub mod fragments;
pub mod geom;
pub mod length;
pub mod replaced;
pub mod script_traits;
pub mod style_ext;

use vstd::prelude::*;

use crate::geom::flow_relative;
use crate::length::{Length, LengthOrAuto};
use crate::style_ext::Mode;

verus! {

/// The rectangle a box's percentages and position resolve against: a definite
/// inline size, a block size that may still be indefinite, and the writing
/// mode and direction its axes are expressed in.
pub struct ContainingBlock {
    pub inline_size: Length,
    pub block_size: LengthOrAuto,
    pub mode: Mode,
}

/// A containing block whose block size is also definite, as needed to place
/// absolutely positioned boxes.
pub struct DefiniteContainingBlock {
    pub size: flow_relative::Vec2<Length>,
    pub mode: Mode,
}

impl ContainingBlock {
    /// A containing block is meaningful only with non-negative definite sizes.
    pub open spec fn wf(&self) -> bool {
        &&& self.inline_size >= 0
        &&& match self.block_size {
            LengthOrAuto::LengthValue(v) => v >= 0,
            LengthOrAuto::Auto => true,
        }
    }
}

impl DefiniteContainingBlock {
    pub open spec fn wf(&self) -> bool {
        self.size.inline >= 0 && self.size.block >= 0
    }
}

impl<'a> From<&'a DefiniteContainingBlock> for ContainingBlock {
    fn from(definite: &'a DefiniteContainingBlock) -> (r: ContainingBlock) {
        ContainingBlock {
            inline_size: definite.size.inline,
            block_size: LengthOrAuto::LengthValue(definite.size.block),
            mode: definite.mode,
        }
    }
}

impl<'a> vstd::std_specs::convert::FromSpecImpl<&'a DefiniteContainingBlock> for ContainingBlock {
    open spec fn obeys_from_spec() -> bool {
        true
    }

    open spec fn from_spec(definite: &'a DefiniteContainingBlock) -> ContainingBlock {
        ContainingBlock {
            inline_size: definite.size.inline,
            block_size: LengthOrAuto::LengthValue(definite.size.block),
            mode: definite.mode,
        }
    }
}

} // verus!

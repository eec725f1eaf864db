//! The immutable output tree of layout: box, anonymous, text and image
//! fragments, and the margin-collapsing value type.

use vstd::prelude::*;

use std::sync::Arc;

use crate::geom::flow_relative::{Rect, Sides};
use crate::geom::spec_inflate;
use crate::length::Length;
use crate::style_ext::{ComputedStyle, Mode};

verus! {

/// One node of the fragment tree.
pub enum Fragment {
    Box(BoxFragment),
    Anonymous(AnonymousFragment),
    Text(TextFragment),
    Image(ImageFragment),
}

/// A fragment generated by an element's box: its style, children, content
/// rectangle and the used padding, border and margin, all in flow-relative
/// coordinates of its own writing mode.  The content rectangle's start
/// corner is relative to its containing fragment's content box.
pub struct BoxFragment {
    pub style: Arc<ComputedStyle>,
    pub children: Vec<Fragment>,
    pub content_rect: Rect<Length>,
    pub padding: Sides<Length>,
    pub border: Sides<Length>,
    pub margin: Sides<Length>,
    pub block_margins_collapsed_with_children: CollapsedBlockMargins,
}

/// A positioning-only wrapper: contains child fragments with relative
/// coordinates but does not contribute to painting itself.
pub struct AnonymousFragment {
    pub rect: Rect<Length>,
    pub children: Vec<Fragment>,
    pub mode: Mode,
}

/// A leaf paint primitive referencing an already-shaped glyph run.
pub struct TextFragment {
    pub parent_style: Arc<ComputedStyle>,
    pub content_rect: Rect<Length>,
    pub ascent: Length,
    /// An opaque handle to the font instance that shaped the run.
    pub font_key: u64,
    /// Opaque handles to the shaped glyph stores of the run.
    pub glyphs: Vec<u64>,
}

/// A leaf paint primitive referencing a decoded image.
pub struct ImageFragment {
    pub style: Arc<ComputedStyle>,
    pub content_rect: Rect<Length>,
    /// An opaque handle to the decoded image.
    pub image_key: u64,
}

/// A pending margin under margin collapsing: the largest positive
/// contribution and the smallest negative contribution seen so far, kept
/// separately because adjoining margins merge by extremes, not by sum.
#[derive(Clone, Copy, Debug, PartialEq, Eq, Structural)]
pub struct CollapsedMargin {
    pub max_positive: Length,
    pub min_negative: Length,
}

/// A box's resolved start and end collapsed margins, and whether the box's
/// whole block extent collapsed away (an empty block whose margins touch
/// through it).
#[derive(Clone, Copy, Debug, PartialEq, Eq, Structural)]
pub struct CollapsedBlockMargins {
    pub collapsed_through: bool,
    pub start: CollapsedMargin,
    pub end: CollapsedMargin,
}

impl CollapsedMargin {
    /// A collapsed margin holds a non-negative positive part and a
    /// non-positive negative part.
    pub open spec fn wf(&self) -> bool {
        self.max_positive >= 0 && self.min_negative <= 0
    }

    /// The zero margin: the identity of [`Self::adjoin`].
    pub fn zero() -> (r: CollapsedMargin)
        ensures
            r == CollapsedMargin::spec_zero(),
    {
        CollapsedMargin { max_positive: 0, min_negative: 0 }
    }

    /// The value `CollapsedMargin::zero` returns.
    pub open spec fn spec_zero() -> CollapsedMargin {
        CollapsedMargin { max_positive: 0i64, min_negative: 0i64 }
    }

    /// What `CollapsedMargin::new` computes.
    pub open spec fn spec_new(margin: Length) -> CollapsedMargin {
        CollapsedMargin {
            max_positive: if margin >= 0 { margin } else { 0i64 },
            min_negative: if margin <= 0 { margin } else { 0i64 },
        }
    }

    /// A pending margin holding one margin value.
    pub fn new(margin: Length) -> (r: CollapsedMargin)
        ensures
            r == CollapsedMargin::spec_new(margin),
            r.wf(),
    {
        CollapsedMargin {
            max_positive: if margin >= 0 { margin } else { 0 },
            min_negative: if margin <= 0 { margin } else { 0 },
        }
    }

    /// What `CollapsedMargin::adjoin` computes: the merge of two adjoining
    /// margins, by extremes.
    pub open spec fn spec_adjoin(self, other: CollapsedMargin) -> CollapsedMargin {
        CollapsedMargin {
            max_positive: if self.max_positive >= other.max_positive {
                self.max_positive
            } else {
                other.max_positive
            },
            min_negative: if self.min_negative <= other.min_negative {
                self.min_negative
            } else {
                other.min_negative
            },
        }
    }

    /// Merges two adjoining margins: the result keeps the larger positive
    /// contribution and the smaller negative contribution.
    pub fn adjoin(&self, other: &CollapsedMargin) -> (r: CollapsedMargin)
        ensures
            r == self.spec_adjoin(*other),
    {
        CollapsedMargin {
            max_positive: if self.max_positive >= other.max_positive {
                self.max_positive
            } else {
                other.max_positive
            },
            min_negative: if self.min_negative <= other.min_negative {
                self.min_negative
            } else {
                other.min_negative
            },
        }
    }

    /// Merges `other` into this margin in place.
    pub fn adjoin_assign(&mut self, other: &CollapsedMargin)
        ensures
            *final(self) == old(self).spec_adjoin(*other),
    {
        *self = self.adjoin(other);
    }

    /// What `CollapsedMargin::solve` computes.
    pub open spec fn spec_solve(self) -> int {
        self.max_positive as int + self.min_negative as int
    }

    /// The used margin this pending margin resolves to: the positive and the
    /// negative extreme added together.
    pub fn solve(&self) -> (r: Length)
        requires
            self.wf(),
        ensures
            r as int == self.spec_solve(),
    {
        self.max_positive + self.min_negative
    }
}

/// Adjoining margins is commutative.
pub proof fn lemma_adjoin_commutative(a: CollapsedMargin, b: CollapsedMargin)
    ensures
        a.spec_adjoin(b) == b.spec_adjoin(a),
{
}

/// Adjoining margins is associative.
pub proof fn lemma_adjoin_associative(a: CollapsedMargin, b: CollapsedMargin, c: CollapsedMargin)
    ensures
        a.spec_adjoin(b).spec_adjoin(c) == a.spec_adjoin(b.spec_adjoin(c)),
{
}

/// The zero margin is the identity of adjoining, on either side.
pub proof fn lemma_adjoin_zero_identity(a: CollapsedMargin)
    requires
        a.wf(),
    ensures
        CollapsedMargin::spec_zero().spec_adjoin(a) == a,
        a.spec_adjoin(CollapsedMargin::spec_zero()) == a,
{
}

impl CollapsedBlockMargins {
    pub open spec fn wf(&self) -> bool {
        self.start.wf() && self.end.wf()
    }

    /// Start and end margins taken from a margin value, not collapsed with
    /// anything yet.
    pub fn from_margin(margin: &Sides<Length>) -> (r: CollapsedBlockMargins)
        ensures
            r == (CollapsedBlockMargins {
                collapsed_through: false,
                start: CollapsedMargin::spec_new(margin.block_start),
                end: CollapsedMargin::spec_new(margin.block_end),
            }),
            r.wf(),
    {
        CollapsedBlockMargins {
            collapsed_through: false,
            start: CollapsedMargin::new(margin.block_start),
            end: CollapsedMargin::new(margin.block_end),
        }
    }

    /// Zero start and end margins, not collapsed through.
    pub fn zero() -> (r: CollapsedBlockMargins)
        ensures
            r == (CollapsedBlockMargins {
                collapsed_through: false,
                start: CollapsedMargin::spec_zero(),
                end: CollapsedMargin::spec_zero(),
            }),
            r.wf(),
    {
        CollapsedBlockMargins {
            collapsed_through: false,
            start: CollapsedMargin::zero(),
            end: CollapsedMargin::zero(),
        }
    }
}

impl AnonymousFragment {
    /// An empty wrapper that contributes nothing to layout or painting.
    pub fn no_op(mode: Mode) -> (r: AnonymousFragment)
        ensures
            r.children@.len() == 0,
            r.rect == (Rect {
                start_corner: crate::geom::flow_relative::Vec2 { inline: 0i64, block: 0i64 },
                size: crate::geom::flow_relative::Vec2 { inline: 0i64, block: 0i64 },
            }),
            r.mode == mode,
    {
        AnonymousFragment { children: Vec::new(), rect: Rect::zero(), mode }
    }
}

impl BoxFragment {
    /// What `BoxFragment::border_rect` computes: the content rectangle grown
    /// by the padding, then by the border widths.
    pub open spec fn spec_border_rect(&self) -> Rect<Length> {
        spec_inflate(spec_inflate(self.content_rect, self.padding), self.border)
    }

    /// The fragment's border box: the content rectangle grown by padding and
    /// border.
    pub fn border_rect(&self) -> (r: Rect<Length>)
        ensures
            r == self.spec_border_rect(),
    {
        self.content_rect.inflate(&self.padding).inflate(&self.border)
    }

    /// Whether the fragment paints any visible decoration of its own: a
    /// visible background, or a border of non-zero width on some side.
    pub open spec fn spec_has_visible_decoration(&self) -> bool {
        ||| self.style.background_is_visible
        ||| self.border.inline_start != 0
        ||| self.border.inline_end != 0
        ||| self.border.block_start != 0
        ||| self.border.block_end != 0
    }

    #[verifier::when_used_as_spec(spec_has_visible_decoration)]
    pub fn has_visible_decoration(&self) -> (r: bool)
        ensures
            r == self.spec_has_visible_decoration(),
    {
        self.style.background_is_visible || self.border.inline_start != 0
            || self.border.inline_end != 0 || self.border.block_start != 0
            || self.border.block_end != 0
    }
}

} // verus!

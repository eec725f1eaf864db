//! The box-tree root and the layout driver: building the top-level box tree
//! from the document root, laying it out against a viewport-derived initial
//! containing block, and fanning the deferred absolutely positioned boxes
//! out in parallel with order-preserving reassembly.

use vstd::prelude::*;

use std::sync::Arc;

use rayon::iter::IntoParallelRefIterator;
use rayon::iter::ParallelIterator;

use crate::display_list::{
    build_children_display_list, spec_frags_contentful, spec_frags_convertible,
    spec_frags_item_count, spec_frags_items, DisplayListBuilder, IsContentful,
};
use crate::dom_traversal::StyledNode;
use crate::flow::{
    abs_fragment_ok, bfc_abs_frags, bfc_boxes, bfc_layout_ok, box_for_node_ok,
    container_frags_ok, inflow_frag_count, layout_absolute, AbsolutelyPositionedBox,
    AbsolutelyPositionedFragment, BlockContainer, BlockFormattingContext, BlockLevelBox,
    ContainsFloats, FloatBox, IndependentFormattingContext,
};
use crate::fragments::Fragment;
use crate::geom::{flow_relative, physical, spec_size_to_flow_relative, UnsupportedConfiguration};
use crate::length::{Length, LengthOrAuto};
use crate::style_ext::{Direction, Display, DisplayGeneratingBox, DisplayInside, WritingMode};
use crate::ContainingBlock;
use crate::DefiniteContainingBlock;

verus! {

/// The top-level box tree of one document: a block formatting context
/// wrapping zero or one block-level box for the root element.
pub struct BoxTreeRoot(pub BlockFormattingContext);

/// The finished, immutable output of one layout pass.
pub struct FragmentTreeRoot(pub Vec<Fragment>);

/// Whether the root element floats (and is not absolutely positioned): the
/// only case in which the top-level context records a float.
pub open spec fn root_contains_floats(root: StyledNode) -> bool {
    !root.style.position.spec_is_absolutely_positioned() && root.style.float.spec_is_floating()
}

/// Whether `boxes` is the top-level box list built for the document root:
/// no box for `display: none`, and for `display: contents` on replaced
/// content; one box otherwise, with the root's outer display blockified,
/// and `display: contents` computing to an ordinary flow box.
pub open spec fn root_boxes_ok(
    root: StyledNode,
    boxes: Seq<Arc<BlockLevelBox>>,
    contains_floats: bool,
) -> bool {
    match root.style.display {
        Display::NoneValue => boxes.len() == 0 && !contains_floats,
        Display::Contents => {
            if root.replaced is Some {
                boxes.len() == 0 && !contains_floats
            } else {
                &&& boxes.len() == 1
                &&& box_for_node_ok(root, DisplayInside::Flow, *boxes[0])
                &&& contains_floats == root_contains_floats(root)
            }
        },
        Display::GeneratingBox(DisplayGeneratingBox::OutsideInside { inside, .. }) => {
            &&& boxes.len() == 1
            &&& box_for_node_ok(root, inside, *boxes[0])
            &&& contains_floats == root_contains_floats(root)
        },
    }
}

/// Builds the top-level box list for the document root: the root's outer
/// display is blockified, so only its inner display and its out-of-flow
/// dispatch matter.
fn construct_for_root_element(root_element: &StyledNode) -> (r: (ContainsFloats, Vec<Arc<BlockLevelBox>>))
    ensures
        root_boxes_ok(*root_element, r.1@, r.0 is Yes),
{
    let replaced_is_some = root_element.replaced.is_some();
    let display_inside: DisplayInside = match root_element.style.display {
        Display::NoneValue => {
            return (ContainsFloats::No, Vec::new());
        },
        Display::Contents => {
            if replaced_is_some {
                // `display: contents` computes to `none` for replaced
                // elements.
                return (ContainsFloats::No, Vec::new());
            }
            // https://drafts.csswg.org/css-display-3/#transformations
            DisplayInside::Flow
        },
        // The root element is blockified; its outer display is ignored.
        Display::GeneratingBox(DisplayGeneratingBox::OutsideInside { inside, .. }) => inside,
    };
    let style = root_element.style.clone();
    if root_element.style.position.is_absolutely_positioned() {
        let b = BlockLevelBox::OutOfFlowAbsolutelyPositionedBox(
            Arc::new(
                AbsolutelyPositionedBox::construct(
                    style,
                    display_inside,
                    &root_element.replaced,
                    &root_element.children,
                ),
            ),
        );
        let mut v: Vec<Arc<BlockLevelBox>> = Vec::new();
        v.push(Arc::new(b));
        (ContainsFloats::No, v)
    } else if root_element.style.float.is_floating() {
        let b = BlockLevelBox::OutOfFlowFloatBox(
            FloatBox::construct(style, display_inside, &root_element.replaced, &root_element.children),
        );
        let mut v: Vec<Arc<BlockLevelBox>> = Vec::new();
        v.push(Arc::new(b));
        (ContainsFloats::Yes, v)
    } else {
        let b = BlockLevelBox::Independent(
            IndependentFormattingContext::construct(
                style,
                display_inside,
                &root_element.replaced,
                &root_element.children,
            ),
        );
        let mut v: Vec<Arc<BlockLevelBox>> = Vec::new();
        v.push(Arc::new(b));
        (ContainsFloats::No, v)
    }
}

impl BoxTreeRoot {
    /// Builds the top-level box tree for one document root.
    pub fn construct(root_element: &StyledNode) -> (r: BoxTreeRoot)
        ensures
            root_boxes_ok(*root_element, bfc_boxes(r.0), r.0.contains_floats),
    {
        let (contains_floats, boxes) = construct_for_root_element(root_element);
        BoxTreeRoot(
            BlockFormattingContext {
                contains_floats: matches!(contains_floats, ContainsFloats::Yes),
                contents: BlockContainer::BlockLevelBoxes(boxes),
            },
        )
    }
}

/// The initial containing block of a viewport: sized to the viewport, with
/// the writing mode fixed to horizontal-top-to-bottom, left-to-right
/// (orthogonal root flows are outside this core).
pub open spec fn spec_initial_containing_block(viewport: physical::Vec2<Length>) -> DefiniteContainingBlock {
    DefiniteContainingBlock {
        size: spec_size_to_flow_relative(viewport, (WritingMode::HorizontalTb, Direction::Ltr)),
        mode: (WritingMode::HorizontalTb, Direction::Ltr),
    }
}

/// A definite containing block, viewed with its block size definite.
pub open spec fn spec_containing_block_of(definite: DefiniteContainingBlock) -> ContainingBlock {
    ContainingBlock {
        inline_size: definite.size.inline,
        block_size: LengthOrAuto::LengthValue(definite.size.block),
        mode: definite.mode,
    }
}

/// What one whole layout pass produces: the in-flow fragments first, then
/// one fragment for each absolutely positioned box the pass discovered,
/// appended in discovery order and laid out against the initial containing
/// block.  Every discovered box appears exactly once, at its discovery
/// position, whatever the fan-out's worker count.
pub open spec fn root_layout_ok(
    bfc: BlockFormattingContext,
    icb: DefiniteContainingBlock,
    frags: Seq<Fragment>,
) -> bool {
    let boxes = bfc_boxes(bfc);
    let cb = spec_containing_block_of(icb);
    let absolutes = bfc_abs_frags(bfc);
    let n = inflow_frag_count(boxes, cb);
    &&& frags.len() == n + absolutes.len()
    &&& container_frags_ok(boxes, cb, false, frags.take(n as int))
    &&& forall|i: int|
        0 <= i < absolutes.len() ==> abs_fragment_ok(
            *absolutes[i].absolutely_positioned_box,
            icb,
            (flow_relative::Vec2 { inline: 0i64, block: 0i64 }),
            frags[n + i],
        )
}

/// Relies on rayon 1.12: `par_iter` over a `Vec` yields an indexed parallel
/// iterator over the elements, `map` applies its operation to each element,
/// and `collect` into a `Vec` places the results in the input's order, so
/// the result holds exactly one fragment per discovered box, in discovery
/// order, whatever the worker count.  The mapped closure only calls the
/// verified `layout_absolute`.
#[verifier::external_body]
fn par_layout_absolutes(
    absolutes: &Vec<AbsolutelyPositionedFragment>,
    initial_containing_block: &DefiniteContainingBlock,
    origin: flow_relative::Vec2<Length>,
) -> (r: Vec<Fragment>)
    requires
        initial_containing_block.wf(),
    ensures
        r@.len() == absolutes@.len(),
        forall|i: int|
            0 <= i < absolutes@.len() ==> abs_fragment_ok(
                *absolutes@[i].absolutely_positioned_box,
                *initial_containing_block,
                origin,
                r@[i],
            ),
{
    absolutes
        .par_iter()
        .map(|a| layout_absolute(&a.absolutely_positioned_box, initial_containing_block, origin))
        .collect()
}

impl BoxTreeRoot {
    /// Lays the box tree out against a viewport: the synchronous in-flow
    /// pass first, then an unordered parallel fan-out over the discovered
    /// absolutely positioned boxes whose results are reassembled in
    /// discovery order and appended after the in-flow fragments.
    pub fn layout(&self, viewport: physical::Vec2<Length>) -> (r: FragmentTreeRoot)
        requires
            viewport.x >= 0,
            viewport.y >= 0,
        ensures
            root_layout_ok(self.0, spec_initial_containing_block(viewport), r.0@),
    {
        let initial_containing_block = DefiniteContainingBlock {
            size: viewport.size_to_flow_relative((WritingMode::HorizontalTb, Direction::Ltr)),
            mode: (WritingMode::HorizontalTb, Direction::Ltr),
        };
        let containing_block = ContainingBlock::from(&initial_containing_block);
        let dummy_tree_rank: usize = 0;
        let mut absolutely_positioned_fragments: Vec<AbsolutelyPositionedFragment> = Vec::new();
        proof {
            assert(absolutely_positioned_fragments@ =~= Seq::<AbsolutelyPositionedFragment>::empty());
        }
        let mut independent_layout = self.0.layout(
            &containing_block,
            dummy_tree_rank,
            &mut absolutely_positioned_fragments,
        );
        proof {
            assert(absolutely_positioned_fragments@ =~= bfc_abs_frags(self.0));
        }
        let mut laid_out_absolutes = par_layout_absolutes(
            &absolutely_positioned_fragments,
            &initial_containing_block,
            flow_relative::Vec2::zero(),
        );
        let ghost inflow = independent_layout.fragments@;
        independent_layout.fragments.append(&mut laid_out_absolutes);
        proof {
            assert(independent_layout.fragments@.take(inflow.len() as int) =~= inflow);
        }
        FragmentTreeRoot(independent_layout.fragments)
    }
}


impl FragmentTreeRoot {
    /// Walks the finished fragment tree in paint order, feeding the
    /// display-list sink, with the physical containing rectangle anchored
    /// at the origin and sized to the viewport.  Returns whether anything
    /// visible was painted; fails exactly when some fragment's writing mode
    /// has no physical conversion.
    pub fn build_display_list(
        &self,
        builder: &mut DisplayListBuilder,
        viewport_size: physical::Vec2<Length>,
    ) -> (r: Result<IsContentful, UnsupportedConfiguration>)
        ensures
            r is Ok <==> spec_frags_convertible(self.0@),
            r matches Ok(ic) ==> ic.0 == spec_frags_contentful(self.0@),
            final(builder).items@.take(old(builder).items@.len() as int) == old(builder).items@,
            r is Ok ==> final(builder).items@.len() == old(builder).items@.len()
                + spec_frags_item_count(self.0@) && spec_frags_items(
                self.0@,
                (physical::Rect {
                    top_left: physical::Vec2 { x: 0i64, y: 0i64 },
                    size: viewport_size,
                }),
                final(builder).items@.skip(old(builder).items@.len() as int),
            ),
    {
        let containing_block = physical::Rect {
            top_left: physical::Vec2 { x: 0, y: 0 },
            size: viewport_size,
        };
        let mut is_contentful = IsContentful(false);
        match build_children_display_list(
            &self.0,
            builder,
            &mut is_contentful,
            &containing_block,
        ) {
            Ok(()) => Ok(is_contentful),
            Err(e) => Err(e),
        }
    }
}

} // verus!

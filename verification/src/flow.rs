//! The formatting-context layer and the block-formatting-context algorithms:
//! box-tree construction from styled nodes, the in-flow layout walk with
//! margin collapsing, and the deferred layout of absolutely positioned
//! boxes.

pub mod root;

use vstd::prelude::*;

use std::sync::Arc;

use crate::dom_traversal::StyledNode;
use crate::fragments::{
    BoxFragment, CollapsedBlockMargins, CollapsedMargin, Fragment, ImageFragment,
};
use crate::geom::{
    flow_relative, spec_block_sum, spec_inline_sum, spec_sides_to_flow_relative,
    spec_size_to_flow_relative,
};
use crate::length::{
    add_sat, clamp0, spec_add_sat, spec_clamp0, spec_maybe_resolve, spec_resolve,
    spec_resolve_or_auto, spec_sub_sat, sub_sat, Length, LengthOrAuto,
};
use crate::replaced::ReplacedContent;
use crate::style_ext::{ComputedStyle, Display, DisplayGeneratingBox, DisplayInside, WritingMode};
use crate::ContainingBlock;
use crate::DefiniteContainingBlock;

verus! {

/// An ordered sequence of block-level boxes, plus a flag recording whether
/// any direct or nested in-flow descendant is a float box.
pub struct BlockFormattingContext {
    pub contents: BlockContainer,
    pub contains_floats: bool,
}

/// The contents of a block container.
pub enum BlockContainer {
    BlockLevelBoxes(Vec<Arc<BlockLevelBox>>),
}

/// One block-level box: in flow, or taken out of flow as a float or an
/// absolutely positioned box.
pub enum BlockLevelBox {
    Independent(IndependentFormattingContext),
    OutOfFlowAbsolutelyPositionedBox(Arc<AbsolutelyPositionedBox>),
    OutOfFlowFloatBox(FloatBox),
}

/// A box whose layout is deferred until the in-flow pass of its containing
/// block has finished.
pub struct AbsolutelyPositionedBox {
    pub contents: IndependentFormattingContext,
}

/// An out-of-flow float box.  Float placement is a sibling algorithm outside
/// this core: float boxes contribute construction-time bookkeeping
/// (`contains_floats`) but produce no fragment here.
pub struct FloatBox {
    pub contents: IndependentFormattingContext,
}

/// An independently laid out subtree: a style handle and either a nested
/// block formatting context ("flow") or opaque replaced content, never both.
/// The variant is not inspectable from outside this component; access goes
/// through [`Self::as_replaced`], which yields one of exactly two outcomes.
pub struct IndependentFormattingContext {
    pub style: Arc<ComputedStyle>,
    /// The lazily computed intrinsic-content-size cache, populated only when
    /// a parent's sizing algorithm requests it.  No sizing algorithm in this
    /// core requests intrinsic sizes, so the cache stays unpopulated.
    pub content_sizes: BoxContentSizes,
    pub(crate) contents: IndependentFormattingContextContents,
}

// Private so that code outside of this component cannot match on the
// variants; it should go through `as_replaced` instead.
pub(crate) enum IndependentFormattingContextContents {
    Flow(BlockFormattingContext),
    Replaced(ReplacedContent),
}

/// A capability-narrowing handle to a formatting context known not to hold
/// replaced content: only flow-specific operations are reachable through it.
pub struct NonReplacedIFC<'a>(pub(crate) NonReplacedIFCKind<'a>);

pub(crate) enum NonReplacedIFCKind<'a> {
    Flow(&'a BlockFormattingContext),
}

/// The intrinsic-content-size cache of an independent formatting context.
pub enum BoxContentSizes {
    NoneWereRequested,
    Inline(ContentSizes),
}

/// Min-content and max-content inline sizes.
#[derive(Clone, Copy, Debug, PartialEq, Eq, Structural)]
pub struct ContentSizes {
    pub min_content: Length,
    pub max_content: Length,
}

/// What one layout pass over an independent formatting context produces: an
/// ordered fragment list and the resolved content block size.
pub struct IndependentLayout {
    pub fragments: Vec<Fragment>,
    pub content_block_size: Length,
}

impl IndependentFormattingContext {
    /// The two possible contents of a formatting context, as a ghost value:
    /// `Ok` for replaced content, `Err` for a nested block formatting
    /// context.
    pub closed spec fn spec_as_replaced(&self) -> Result<ReplacedContent, BlockFormattingContext> {
        match self.contents {
            IndependentFormattingContextContents::Flow(b) => Err(b),
            IndependentFormattingContextContents::Replaced(r) => Ok(r),
        }
    }

    /// Queries the contents: replaced content, or a flow-only handle.  This
    /// is the only way to inspect what a formatting context holds.
    pub fn as_replaced(&self) -> (r: Result<&ReplacedContent, NonReplacedIFC>)
        ensures
            match r {
                Ok(rep) => self.spec_as_replaced() == Ok::<ReplacedContent, BlockFormattingContext>(
                    *rep,
                ),
                Err(nr) => self.spec_as_replaced() == Err::<ReplacedContent, BlockFormattingContext>(
                    nr.spec_flow(),
                ),
            },
    {
        match &self.contents {
            IndependentFormattingContextContents::Replaced(r) => Ok(r),
            IndependentFormattingContextContents::Flow(f) => Err(
                NonReplacedIFC(NonReplacedIFCKind::Flow(f)),
            ),
        }
    }
}

impl<'a> NonReplacedIFC<'a> {
    /// The nested block formatting context this handle narrows to.
    pub closed spec fn spec_flow(&self) -> BlockFormattingContext {
        match self.0 {
            NonReplacedIFCKind::Flow(b) => *b,
        }
    }
}

// ===========================================================================
// Box-tree construction: from styled nodes to block-level boxes.
// ===========================================================================

/// Whether a constructed subtree contains float boxes.
#[derive(Clone, Copy, Debug, PartialEq, Eq, Structural)]
pub enum ContainsFloats {
    No,
    Yes,
}

/// How many block-level boxes a node generates in its parent's container:
/// none for `display: none` (and for `display: contents` on replaced
/// content, which computes to none), its children's boxes spliced in place
/// for `display: contents`, and exactly one box otherwise.
pub open spec fn node_box_count(n: StyledNode) -> nat
    decreases n, 1nat,
{
    match n.style.display {
        Display::NoneValue => 0,
        Display::Contents => if n.replaced is Some {
            0
        } else {
            seq_box_count(n.children@)
        },
        Display::GeneratingBox(_) => 1,
    }
}

/// How many block-level boxes a sequence of sibling nodes generates.
pub open spec fn seq_box_count(nodes: Seq<StyledNode>) -> nat
    decreases nodes, 2nat,
{
    if nodes.len() == 0 {
        0
    } else {
        seq_box_count(nodes.drop_last()) + node_box_count(nodes.last())
    }
}

/// Whether `out` is exactly the sequence of block-level boxes that the
/// sibling nodes `nodes` construct to, in order.
pub open spec fn boxes_of_nodes(nodes: Seq<StyledNode>, out: Seq<Arc<BlockLevelBox>>) -> bool
    decreases nodes, 3nat,
{
    if nodes.len() == 0 {
        out.len() == 0
    } else {
        let k = node_box_count(nodes.last());
        &&& out.len() >= k
        &&& boxes_of_nodes(nodes.drop_last(), out.take(out.len() - k))
        &&& node_boxes_ok(nodes.last(), out.skip(out.len() - k))
    }
}

/// Whether `bs` is exactly the boxes that one node constructs to.
pub open spec fn node_boxes_ok(n: StyledNode, bs: Seq<Arc<BlockLevelBox>>) -> bool
    decreases n, 2nat,
{
    match n.style.display {
        Display::NoneValue => bs.len() == 0,
        Display::Contents => {
            // `display: contents` computes to `none` for replaced elements.
            if n.replaced is Some {
                bs.len() == 0
            } else {
                boxes_of_nodes(n.children@, bs)
            }
        },
        Display::GeneratingBox(DisplayGeneratingBox::OutsideInside { inside, .. }) => {
            bs.len() == 1 && box_for_node_ok(n, inside, *bs[0])
        },
    }
}

/// The out-of-flow dispatch: absolutely or fixed positioned boxes first,
/// then floats, else an in-flow independent formatting context.
pub open spec fn box_for_node_ok(n: StyledNode, inside: DisplayInside, b: BlockLevelBox) -> bool
    decreases n, 1nat,
{
    if n.style.position.is_absolutely_positioned() {
        b matches BlockLevelBox::OutOfFlowAbsolutelyPositionedBox(a) && ifc_ok(
            *n.style,
            n.replaced,
            n.children@,
            (*a).contents,
        )
    } else if n.style.float.is_floating() {
        b matches BlockLevelBox::OutOfFlowFloatBox(f) && ifc_ok(
            *n.style,
            n.replaced,
            n.children@,
            f.contents,
        )
    } else {
        b matches BlockLevelBox::Independent(ifc) && ifc_ok(
            *n.style,
            n.replaced,
            n.children@,
            ifc,
        )
    }
}

/// Whether `ifc` is the independent formatting context constructed for a
/// node with the given style, replaced content and children: replaced
/// content is stored opaquely and never recursed into; otherwise the
/// children construct a nested block formatting context.
pub closed spec fn ifc_ok(
    style: ComputedStyle,
    replaced: Option<ReplacedContent>,
    children: Seq<StyledNode>,
    ifc: IndependentFormattingContext,
) -> bool
    decreases children, 5nat,
{
    &&& *ifc.style == style
    &&& ifc.content_sizes matches BoxContentSizes::NoneWereRequested
    &&& match replaced {
        Some(rep) => ifc.spec_as_replaced() == Ok::<ReplacedContent, BlockFormattingContext>(rep),
        None => {
            ifc.spec_as_replaced() matches Err(bfc) && bfc_ok(children, bfc)
        },
    }
}

/// Whether `bfc` is the block formatting context constructed from the given
/// children, with its `contains_floats` flag set exactly when some direct or
/// nested in-flow descendant is a float box.
pub open spec fn bfc_ok(children: Seq<StyledNode>, bfc: BlockFormattingContext) -> bool
    decreases children, 4nat,
{
    match bfc.contents {
        BlockContainer::BlockLevelBoxes(v) => {
            &&& boxes_of_nodes(children, v@)
            &&& bfc.contains_floats == boxes_contain_floats(v@)
        },
    }
}

/// Whether a sequence of constructed boxes contains a float: a float box
/// directly, or an in-flow box whose nested formatting context recorded one.
pub open spec fn boxes_contain_floats(boxes: Seq<Arc<BlockLevelBox>>) -> bool
    decreases boxes,
{
    if boxes.len() == 0 {
        false
    } else {
        boxes_contain_floats(boxes.drop_last()) || box_contains_float(*boxes.last())
    }
}

/// Whether one constructed box is a float or records a nested float.
pub closed spec fn box_contains_float(b: BlockLevelBox) -> bool {
    match b {
        BlockLevelBox::OutOfFlowFloatBox(_) => true,
        BlockLevelBox::Independent(ifc) => match ifc.spec_as_replaced() {
            Err(bfc) => bfc.contains_floats,
            Ok(_) => false,
        },
        BlockLevelBox::OutOfFlowAbsolutelyPositionedBox(_) => false,
    }
}

/// The construction relation fixes how many boxes come out.
proof fn lemma_boxes_of_nodes_len(nodes: Seq<StyledNode>, out: Seq<Arc<BlockLevelBox>>)
    requires
        boxes_of_nodes(nodes, out),
    ensures
        out.len() == seq_box_count(nodes),
    decreases nodes.len(),
{
    if nodes.len() == 0 {
    } else {
        let k = node_box_count(nodes.last());
        lemma_boxes_of_nodes_len(nodes.drop_last(), out.take(out.len() - k));
    }
}

/// Extending a constructed prefix by one node's boxes extends the
/// construction relation.
proof fn lemma_boxes_of_nodes_push(
    nodes: Seq<StyledNode>,
    n: StyledNode,
    out: Seq<Arc<BlockLevelBox>>,
    chunk: Seq<Arc<BlockLevelBox>>,
)
    requires
        boxes_of_nodes(nodes, out),
        node_boxes_ok(n, chunk),
        chunk.len() == node_box_count(n),
    ensures
        boxes_of_nodes(nodes.push(n), out + chunk),
{
    let combined = out + chunk;
    assert(nodes.push(n).drop_last() =~= nodes);
    assert(nodes.push(n).last() == n);
    assert(combined.take(combined.len() - chunk.len()) =~= out);
    assert(combined.skip(combined.len() - chunk.len()) =~= chunk);
}

/// Float bookkeeping distributes over concatenation.
proof fn lemma_contains_floats_concat(a: Seq<Arc<BlockLevelBox>>, b: Seq<Arc<BlockLevelBox>>)
    ensures
        boxes_contain_floats(a + b) == (boxes_contain_floats(a) || boxes_contain_floats(b)),
    decreases b.len(),
{
    if b.len() == 0 {
        assert(a + b =~= a);
    } else {
        lemma_contains_floats_concat(a, b.drop_last());
        assert((a + b).drop_last() =~= a + b.drop_last());
        assert((a + b).last() == b.last());
    }
}

/// Whether this box is a float or records a nested float, as
/// [`box_contains_float`] states.
fn contains_float(b: &BlockLevelBox) -> (r: bool)
    ensures
        r == box_contains_float(*b),
{
    match b {
        BlockLevelBox::OutOfFlowFloatBox(_) => true,
        BlockLevelBox::Independent(ifc) => match ifc.as_replaced() {
            Err(nr) => match &nr.0 {
                NonReplacedIFCKind::Flow(bfc) => bfc.contains_floats,
            },
            Ok(_) => false,
        },
        BlockLevelBox::OutOfFlowAbsolutelyPositionedBox(_) => false,
    }
}

impl IndependentFormattingContext {
    /// Wraps a styled node's pieces as an independent formatting context:
    /// replaced content is stored opaquely, anything else builds a nested
    /// block formatting context from the children.  Both inner display
    /// types, flow and flow-root, construct the same nested context here.
    pub fn construct(
        style: Arc<ComputedStyle>,
        display_inside: DisplayInside,
        replaced: &Option<ReplacedContent>,
        children: &Vec<StyledNode>,
    ) -> (r: IndependentFormattingContext)
        ensures
            ifc_ok(*style, *replaced, children@, r),
        decreases children@, 2nat,
    {
        let _ = display_inside;
        let contents = match replaced {
            Some(rep) => IndependentFormattingContextContents::Replaced(*rep),
            None => IndependentFormattingContextContents::Flow(
                BlockFormattingContext::construct(children),
            ),
        };
        IndependentFormattingContext {
            style,
            content_sizes: BoxContentSizes::NoneWereRequested,
            contents,
        }
    }
}

impl BlockFormattingContext {
    /// Builds the block formatting context for a sequence of sibling nodes,
    /// recording whether any direct or nested in-flow descendant floats.
    pub fn construct(children: &Vec<StyledNode>) -> (r: BlockFormattingContext)
        ensures
            bfc_ok(children@, r),
        decreases children@, 1nat,
    {
        let (boxes, contains_floats) = construct_boxes_for_nodes(children);
        BlockFormattingContext {
            contents: BlockContainer::BlockLevelBoxes(boxes),
            contains_floats,
        }
    }
}

impl AbsolutelyPositionedBox {
    /// Wraps a node's content for deferred absolutely-positioned layout.
    pub fn construct(
        style: Arc<ComputedStyle>,
        display_inside: DisplayInside,
        replaced: &Option<ReplacedContent>,
        children: &Vec<StyledNode>,
    ) -> (r: AbsolutelyPositionedBox)
        ensures
            ifc_ok(*style, *replaced, children@, r.contents),
        decreases children@, 3nat,
    {
        AbsolutelyPositionedBox {
            contents: IndependentFormattingContext::construct(
                style,
                display_inside,
                replaced,
                children,
            ),
        }
    }
}

impl FloatBox {
    /// Wraps a node's content as a float box.
    pub fn construct(
        style: Arc<ComputedStyle>,
        display_inside: DisplayInside,
        replaced: &Option<ReplacedContent>,
        children: &Vec<StyledNode>,
    ) -> (r: FloatBox)
        ensures
            ifc_ok(*style, *replaced, children@, r.contents),
        decreases children@, 3nat,
    {
        FloatBox {
            contents: IndependentFormattingContext::construct(
                style,
                display_inside,
                replaced,
                children,
            ),
        }
    }
}

/// Builds the boxes one node generates: none for `display: none` and for
/// `display: contents` on replaced content, the children's boxes spliced in
/// place for `display: contents`, and one box otherwise, dispatched on
/// position and float.  Also reports whether the boxes contain floats.
pub fn construct_boxes_for_node(node: &StyledNode) -> (r: (Vec<Arc<BlockLevelBox>>, bool))
    ensures
        node_boxes_ok(*node, r.0@),
        r.0@.len() == node_box_count(*node),
        r.1 == boxes_contain_floats(r.0@),
    decreases *node, 0nat,
{
    let display = node.style.display;
    match display {
        Display::NoneValue => {
            proof {
                assert(!boxes_contain_floats(Seq::<Arc<BlockLevelBox>>::empty()));
            }
            (Vec::new(), false)
        },
        Display::Contents => {
            if node.replaced.is_some() {
                // `display: contents` computes to `none` for replaced
                // elements.
                proof {
                    assert(!boxes_contain_floats(Seq::<Arc<BlockLevelBox>>::empty()));
                }
                (Vec::new(), false)
            } else {
                proof {
                    assert(decreases_to!(*node => (*node).children));
                    assert(decreases_to!((*node).children => node.children@));
                }
                let r = construct_boxes_for_nodes(&node.children);
                proof {
                    lemma_boxes_of_nodes_len(node.children@, r.0@);
                }
                r
            }
        },
        Display::GeneratingBox(DisplayGeneratingBox::OutsideInside { inside, .. }) => {
            proof {
                assert(decreases_to!(*node => (*node).children));
                assert(decreases_to!((*node).children => node.children@));
            }
            let style = node.style.clone();
            let b: BlockLevelBox = if node.style.position.is_absolutely_positioned() {
                BlockLevelBox::OutOfFlowAbsolutelyPositionedBox(
                    Arc::new(
                        AbsolutelyPositionedBox::construct(
                            style,
                            inside,
                            &node.replaced,
                            &node.children,
                        ),
                    ),
                )
            } else if node.style.float.is_floating() {
                BlockLevelBox::OutOfFlowFloatBox(
                    FloatBox::construct(style, inside, &node.replaced, &node.children),
                )
            } else {
                BlockLevelBox::Independent(
                    IndependentFormattingContext::construct(
                        style,
                        inside,
                        &node.replaced,
                        &node.children,
                    ),
                )
            };
            let cf = contains_float(&b);
            let mut out: Vec<Arc<BlockLevelBox>> = Vec::new();
            out.push(Arc::new(b));
            proof {
                assert(out@.drop_last() =~= Seq::<Arc<BlockLevelBox>>::empty());
                assert(!boxes_contain_floats(out@.drop_last()));
                assert(*out@.last() == b);
            }
            (out, cf)
        },
    }
}

/// Builds the boxes for a sequence of sibling nodes, in order, and reports
/// whether they contain floats.
pub fn construct_boxes_for_nodes(nodes: &Vec<StyledNode>) -> (r: (Vec<Arc<BlockLevelBox>>, bool))
    ensures
        boxes_of_nodes(nodes@, r.0@),
        r.1 == boxes_contain_floats(r.0@),
    decreases nodes@, 0nat,
{
    let mut out: Vec<Arc<BlockLevelBox>> = Vec::new();
    let mut contains_floats = false;
    let mut i: usize = 0;
    proof {
        assert(nodes@.subrange(0, 0) =~= Seq::<StyledNode>::empty());
    }
    while i < nodes.len()
        invariant
            0 <= i <= nodes@.len(),
            boxes_of_nodes(nodes@.subrange(0, i as int), out@),
            contains_floats == boxes_contain_floats(out@),
        decreases nodes@.len() - i,
    {
        let node = &nodes[i];
        proof {
            assert(decreases_to!(nodes@ => nodes@[i as int]));
        }
        let (mut chunk, chunk_cf) = construct_boxes_for_node(node);
        proof {
            lemma_boxes_of_nodes_push(nodes@.subrange(0, i as int), nodes@[i as int], out@, chunk@);
            lemma_contains_floats_concat(out@, chunk@);
            assert(nodes@.subrange(0, i as int).push(nodes@[i as int]) =~= nodes@.subrange(
                0,
                i as int + 1,
            ));
        }
        out.append(&mut chunk);
        contains_floats = contains_floats || chunk_cf;
        i += 1;
    }
    proof {
        assert(nodes@.subrange(0, nodes@.len() as int) =~= nodes@);
    }
    (out, contains_floats)
}

// ===========================================================================
// Used-value resolution: padding, border, margin and the two used sizes.
// ===========================================================================

/// The resolved padding, border widths and used margins of one box, in its
/// own flow-relative axes.  `auto` margins resolve to zero here: automatic
/// margin distribution is outside this core.
#[derive(Clone, Copy, Debug, PartialEq, Eq, Structural)]
pub struct PaddingBorderMargin {
    pub padding: flow_relative::Sides<Length>,
    pub border: flow_relative::Sides<Length>,
    pub margin: flow_relative::Sides<Length>,
}

/// The resolved padding: physical percentages mapped to the style's own
/// flow-relative sides, resolved against the containing block's inline size
/// and clamped to be non-negative, as used padding is.
pub open spec fn spec_padding(s: ComputedStyle, inline_basis: Length) -> flow_relative::Sides<Length> {
    let fr = spec_sides_to_flow_relative(s.padding, s.spec_mode());
    flow_relative::Sides {
        inline_start: spec_clamp0(spec_resolve(fr.inline_start, inline_basis as int)) as i64,
        inline_end: spec_clamp0(spec_resolve(fr.inline_end, inline_basis as int)) as i64,
        block_start: spec_clamp0(spec_resolve(fr.block_start, inline_basis as int)) as i64,
        block_end: spec_clamp0(spec_resolve(fr.block_end, inline_basis as int)) as i64,
    }
}

/// The used border widths: mapped to flow-relative sides and clamped to be
/// non-negative.
pub open spec fn spec_border(s: ComputedStyle) -> flow_relative::Sides<Length> {
    let fr = spec_sides_to_flow_relative(s.border_width, s.spec_mode());
    flow_relative::Sides {
        inline_start: spec_clamp0(fr.inline_start as int) as i64,
        inline_end: spec_clamp0(fr.inline_end as int) as i64,
        block_start: spec_clamp0(fr.block_start as int) as i64,
        block_end: spec_clamp0(fr.block_end as int) as i64,
    }
}

/// The used margins: resolved against the containing block's inline size,
/// with `auto` resolving to zero.
pub open spec fn spec_margin_used(s: ComputedStyle, inline_basis: Length) -> flow_relative::Sides<Length> {
    let fr = spec_sides_to_flow_relative(s.margin, s.spec_mode());
    flow_relative::Sides {
        inline_start: spec_auto_zero(spec_resolve_or_auto(fr.inline_start, inline_basis as int)),
        inline_end: spec_auto_zero(spec_resolve_or_auto(fr.inline_end, inline_basis as int)),
        block_start: spec_auto_zero(spec_resolve_or_auto(fr.block_start, inline_basis as int)),
        block_end: spec_auto_zero(spec_resolve_or_auto(fr.block_end, inline_basis as int)),
    }
}

/// `auto` as zero, a concrete length as itself.
pub open spec fn spec_auto_zero(v: LengthOrAuto) -> Length {
    match v {
        LengthOrAuto::LengthValue(l) => l,
        LengthOrAuto::Auto => 0i64,
    }
}

/// Padding and border added side by side, saturating.
pub open spec fn spec_pb_sides(s: ComputedStyle, inline_basis: Length) -> flow_relative::Sides<Length> {
    let p = spec_padding(s, inline_basis);
    let b = spec_border(s);
    flow_relative::Sides {
        inline_start: spec_add_sat(p.inline_start as int, b.inline_start as int) as i64,
        inline_end: spec_add_sat(p.inline_end as int, b.inline_end as int) as i64,
        block_start: spec_add_sat(p.block_start as int, b.block_start as int) as i64,
        block_end: spec_add_sat(p.block_end as int, b.block_end as int) as i64,
    }
}

/// The computed box size in the style's own flow-relative axes, percentages
/// resolved against the containing block: inline percentages against its
/// inline size, block percentages only if its block size is definite.
pub open spec fn spec_box_size(s: ComputedStyle, cb: ContainingBlock) -> flow_relative::Vec2<LengthOrAuto> {
    let (inline_prop, block_prop) = if s.writing_mode == WritingMode::HorizontalTb {
        (s.width, s.height)
    } else {
        (s.height, s.width)
    };
    flow_relative::Vec2 {
        inline: spec_resolve_or_auto(inline_prop, cb.inline_size as int),
        block: spec_maybe_resolve(
            block_prop,
            match cb.block_size {
                LengthOrAuto::LengthValue(v) => Some(v),
                LengthOrAuto::Auto => None,
            },
        ),
    }
}

/// The replaced content's intrinsic size on the inline axis of `s`.
pub open spec fn spec_intrinsic_inline(rep: ReplacedContent, s: ComputedStyle) -> Length {
    spec_clamp0(spec_size_to_flow_relative(rep.intrinsic_size, s.spec_mode()).inline as int) as i64
}

/// The replaced content's intrinsic size on the block axis of `s`.
pub open spec fn spec_intrinsic_block(rep: ReplacedContent, s: ComputedStyle) -> Length {
    spec_clamp0(spec_size_to_flow_relative(rep.intrinsic_size, s.spec_mode()).block as int) as i64
}

/// The used inline size of an in-flow box: its computed inline size, or for
/// `auto` the containing block's inline size less margins, borders and
/// padding (a replaced box falls back to its intrinsic inline size).  Used
/// sizes are never negative.
pub open spec fn spec_used_inline_size(
    s: ComputedStyle,
    cb: ContainingBlock,
    replaced: Option<ReplacedContent>,
) -> Length {
    match spec_box_size(s, cb).inline {
        LengthOrAuto::LengthValue(v) => spec_clamp0(v as int) as i64,
        LengthOrAuto::Auto => match replaced {
            Some(rep) => spec_intrinsic_inline(rep, s),
            None => {
                let margin_sum = spec_inline_sum(spec_margin_used(s, cb.inline_size));
                let pb_sum = spec_inline_sum(spec_pb_sides(s, cb.inline_size));
                spec_clamp0(
                    spec_sub_sat(spec_sub_sat(cb.inline_size as int, margin_sum) as int, pb_sum),
                ) as i64
            },
        },
    }
}

/// The block size the box's contents see as their containing block's block
/// size: definite exactly when the computed block size is not `auto`.
pub open spec fn spec_inner_block_size(s: ComputedStyle, cb: ContainingBlock) -> LengthOrAuto {
    match spec_box_size(s, cb).block {
        LengthOrAuto::LengthValue(v) => LengthOrAuto::LengthValue(spec_clamp0(v as int) as i64),
        LengthOrAuto::Auto => LengthOrAuto::Auto,
    }
}

/// The used block size of an in-flow box.  A computed value is used as it
/// is; `auto` falls back to the intrinsic block size for replaced boxes,
/// fills the containing block (less margins, borders and padding) when the
/// containing block's block size is definite, and otherwise takes the
/// content block size.
pub open spec fn spec_used_block_size(
    s: ComputedStyle,
    cb: ContainingBlock,
    replaced: Option<ReplacedContent>,
    content_block_size: Length,
) -> Length {
    match spec_box_size(s, cb).block {
        LengthOrAuto::LengthValue(v) => spec_clamp0(v as int) as i64,
        LengthOrAuto::Auto => match replaced {
            Some(rep) => spec_intrinsic_block(rep, s),
            None => match cb.block_size {
                LengthOrAuto::LengthValue(d) => {
                    let margin_sum = spec_block_sum(spec_margin_used(s, cb.inline_size));
                    let pb_sum = spec_block_sum(spec_pb_sides(s, cb.inline_size));
                    spec_clamp0(
                        spec_sub_sat(spec_sub_sat(d as int, margin_sum) as int, pb_sum),
                    ) as i64
                },
                LengthOrAuto::Auto => spec_clamp0(content_block_size as int) as i64,
            },
        },
    }
}

/// Whether the box's start margin can collapse with its first in-flow
/// child's: nothing may separate them, so block-start padding and border
/// must be zero.
pub open spec fn spec_start_margin_collapsible(s: ComputedStyle, cb: ContainingBlock) -> bool {
    let p = spec_padding(s, cb.inline_size);
    let b = spec_border(s);
    p.block_start == 0 && b.block_start == 0
}

/// Whether the box's end margin can collapse with its last in-flow child's:
/// block-end padding and border must be zero and the block size must stay
/// content-based (computed `auto`, with no definite containing-block size to
/// fill).
pub open spec fn spec_end_margin_collapsible(s: ComputedStyle, cb: ContainingBlock) -> bool {
    let p = spec_padding(s, cb.inline_size);
    let b = spec_border(s);
    &&& p.block_end == 0
    &&& b.block_end == 0
    &&& spec_box_size(s, cb).block is Auto
    &&& cb.block_size is Auto
}

/// Resolves padding, border widths and margins for one box against its
/// containing block's inline size.
pub fn resolve_pbm(style: &ComputedStyle, inline_basis: Length) -> (r: PaddingBorderMargin)
    ensures
        r.padding == spec_padding(*style, inline_basis),
        r.border == spec_border(*style),
        r.margin == spec_margin_used(*style, inline_basis),
{
    let mode = style.mode();
    let padding_fr = style.padding.to_flow_relative(mode);
    let border_fr = style.border_width.to_flow_relative(mode);
    let margin_fr = style.margin.to_flow_relative(mode);
    let padding = flow_relative::Sides {
        inline_start: clamp0(padding_fr.inline_start.percentage_relative_to(inline_basis)),
        inline_end: clamp0(padding_fr.inline_end.percentage_relative_to(inline_basis)),
        block_start: clamp0(padding_fr.block_start.percentage_relative_to(inline_basis)),
        block_end: clamp0(padding_fr.block_end.percentage_relative_to(inline_basis)),
    };
    let border = flow_relative::Sides {
        inline_start: clamp0(border_fr.inline_start),
        inline_end: clamp0(border_fr.inline_end),
        block_start: clamp0(border_fr.block_start),
        block_end: clamp0(border_fr.block_end),
    };
    let margin = flow_relative::Sides {
        inline_start: auto_zero(margin_fr.inline_start.percentage_relative_to(inline_basis)),
        inline_end: auto_zero(margin_fr.inline_end.percentage_relative_to(inline_basis)),
        block_start: auto_zero(margin_fr.block_start.percentage_relative_to(inline_basis)),
        block_end: auto_zero(margin_fr.block_end.percentage_relative_to(inline_basis)),
    };
    PaddingBorderMargin { padding, border, margin }
}

/// `auto` as zero, a concrete length as itself.
fn auto_zero(v: LengthOrAuto) -> (r: Length)
    ensures
        r == spec_auto_zero(v),
{
    match v {
        LengthOrAuto::LengthValue(l) => l,
        LengthOrAuto::Auto => 0,
    }
}


// ===========================================================================
// The in-flow placement walk: stacking boxes along the block axis while
// collapsing adjoining margins.
// ===========================================================================

/// The running state of the in-flow placement walk over one container's
/// children.
#[derive(Clone, Copy, Debug, PartialEq, Eq, Structural)]
pub struct PlacementState {
    /// Whether the next in-flow margin still collapses with the container's
    /// start margin: true until a child with real block extent is placed.
    pub in_start_phase: bool,
    /// Margins accumulated into the container's own start margin.
    pub start_margin: CollapsedMargin,
    /// Margins seen since the last placed child, not yet positioned.
    pub current_margin: CollapsedMargin,
    /// The block position where the next child's border box goes, before
    /// the pending margin.
    pub current_block_position: Length,
}

impl PlacementState {
    pub open spec fn wf(&self) -> bool {
        self.start_margin.wf() && self.current_margin.wf()
    }

    /// The walk's initial state.
    pub open spec fn spec_initial(start_margin_collapsible: bool) -> PlacementState {
        PlacementState {
            in_start_phase: start_margin_collapsible,
            start_margin: CollapsedMargin::spec_zero(),
            current_margin: CollapsedMargin::spec_zero(),
            current_block_position: 0i64,
        }
    }
}

/// The metrics the placement walk needs of one laid-out in-flow box: its
/// border-box block size and its collapsed block margins.
#[derive(Clone, Copy, Debug, PartialEq, Eq, Structural)]
pub struct BoxMetrics {
    pub border_box_block_size: Length,
    pub cbm: CollapsedBlockMargins,
}

impl BoxMetrics {
    pub open spec fn wf(&self) -> bool {
        self.cbm.wf() && self.border_box_block_size >= 0
    }
}

/// One step of the placement walk: how placing a child with metrics `m`
/// advances the state.  A collapsed-through child leaves the position
/// unchanged and merges both of its margins into the pending margin; any
/// other child is placed after the pending margin resolves, and its end
/// margin becomes the new pending margin.
pub open spec fn spec_step(st: PlacementState, m: BoxMetrics) -> PlacementState {
    if st.in_start_phase {
        let sm = st.start_margin.spec_adjoin(m.cbm.start);
        if m.cbm.collapsed_through {
            PlacementState { start_margin: sm.spec_adjoin(m.cbm.end), ..st }
        } else {
            PlacementState {
                in_start_phase: false,
                start_margin: sm,
                current_margin: m.cbm.end,
                current_block_position: spec_add_sat(
                    st.current_block_position as int,
                    spec_add_sat(st.current_margin.spec_solve(), m.border_box_block_size as int),
                ) as i64,
            }
        }
    } else {
        let cm = st.current_margin.spec_adjoin(m.cbm.start);
        if m.cbm.collapsed_through {
            PlacementState { current_margin: cm.spec_adjoin(m.cbm.end), ..st }
        } else {
            PlacementState {
                in_start_phase: false,
                start_margin: st.start_margin,
                current_margin: m.cbm.end,
                current_block_position: spec_add_sat(
                    st.current_block_position as int,
                    spec_add_sat(cm.spec_solve(), m.border_box_block_size as int),
                ) as i64,
            }
        }
    }
}

/// The block offset a child placed in state `st` gets added to its border
/// box position: the current position plus the pending margin.  A child
/// that collapses through while margins still collapse with the container's
/// start margin stays at the container's content-box origin.
pub open spec fn spec_step_offset(st: PlacementState, m: BoxMetrics) -> int {
    if st.in_start_phase {
        if m.cbm.collapsed_through {
            0
        } else {
            spec_add_sat(st.current_block_position as int, st.current_margin.spec_solve())
        }
    } else {
        spec_add_sat(
            st.current_block_position as int,
            st.current_margin.spec_adjoin(m.cbm.start).spec_solve(),
        )
    }
}

/// The content block size a container takes from its finished walk: the
/// final position, plus the still-pending margin unless that margin
/// collapses out through the container's end margin.
pub open spec fn spec_container_content_size(st: PlacementState, end_margin_collapsible: bool) -> int {
    if end_margin_collapsible {
        st.current_block_position as int
    } else {
        spec_add_sat(st.current_block_position as int, st.current_margin.spec_solve())
    }
}

/// The metrics of one block-level box in the walk: `None` for out-of-flow
/// boxes (they are diverted, not stacked).
pub open spec fn inflow_box_metrics(b: BlockLevelBox, cb: ContainingBlock) -> Option<BoxMetrics>
    decreases b, 1nat,
{
    match b {
        BlockLevelBox::Independent(ifc) => Some(ifc_metrics(ifc, cb)),
        BlockLevelBox::OutOfFlowAbsolutelyPositionedBox(_) => None,
        BlockLevelBox::OutOfFlowFloatBox(_) => None,
    }
}

/// The metrics of one in-flow independent formatting context, computed from
/// the tree alone: the used sizes and the collapsed block margins, with the
/// first/last-child collapsing and the collapsed-through flag resolved.
pub closed spec fn ifc_metrics(ifc: IndependentFormattingContext, cb: ContainingBlock) -> BoxMetrics
    decreases ifc, 0nat,
{
    let s = *ifc.style;
    let pb = spec_pb_sides(s, cb.inline_size);
    let margin = spec_margin_used(s, cb.inline_size);
    match ifc.contents {
        IndependentFormattingContextContents::Replaced(rep) => {
            let block_size = spec_used_block_size(s, cb, Some(rep), 0i64);
            BoxMetrics {
                border_box_block_size: spec_add_sat(spec_block_sum(pb), block_size as int) as i64,
                cbm: CollapsedBlockMargins {
                    collapsed_through: false,
                    start: CollapsedMargin::spec_new(margin.block_start),
                    end: CollapsedMargin::spec_new(margin.block_end),
                },
            }
        },
        IndependentFormattingContextContents::Flow(bfc) => {
            match bfc.contents {
                BlockContainer::BlockLevelBoxes(v) => {
                    let start_collapsible = spec_start_margin_collapsible(s, cb);
                    let end_collapsible = spec_end_margin_collapsible(s, cb);
                    let inner_cb = ContainingBlock {
                        inline_size: spec_used_inline_size(s, cb, None),
                        block_size: spec_inner_block_size(s, cb),
                        mode: s.spec_mode(),
                    };
                    let st = spec_walk(v@, inner_cb, start_collapsible);
                    let content = spec_container_content_size(st, end_collapsible) as i64;
                    let block_size = spec_used_block_size(s, cb, None, content);
                    let start = if start_collapsible {
                        CollapsedMargin::spec_new(margin.block_start).spec_adjoin(st.start_margin)
                    } else {
                        CollapsedMargin::spec_new(margin.block_start)
                    };
                    let end = if end_collapsible {
                        CollapsedMargin::spec_new(margin.block_end).spec_adjoin(st.current_margin)
                    } else {
                        CollapsedMargin::spec_new(margin.block_end)
                    };
                    BoxMetrics {
                        border_box_block_size: spec_add_sat(
                            spec_block_sum(pb),
                            block_size as int,
                        ) as i64,
                        cbm: CollapsedBlockMargins {
                            collapsed_through: start_collapsible && end_collapsible
                                && st.in_start_phase,
                            start,
                            end,
                        },
                    }
                },
            }
        },
    }
}

/// The walk's final state over a sequence of children.
pub open spec fn spec_walk(
    boxes: Seq<Arc<BlockLevelBox>>,
    cb: ContainingBlock,
    start_margin_collapsible: bool,
) -> PlacementState
    decreases boxes, 2nat,
{
    if boxes.len() == 0 {
        PlacementState::spec_initial(start_margin_collapsible)
    } else {
        let st = spec_walk(boxes.drop_last(), cb, start_margin_collapsible);
        match inflow_box_metrics(*boxes.last(), cb) {
            Some(m) => spec_step(st, m),
            None => st,
        }
    }
}

// ===========================================================================
// The fragment relation: what the fragments a layout pass produces must be.
// ===========================================================================

/// How many fragments a container's children produce: one per in-flow box.
pub open spec fn inflow_frag_count(boxes: Seq<Arc<BlockLevelBox>>, cb: ContainingBlock) -> nat
    decreases boxes, 3nat,
{
    if boxes.len() == 0 {
        0
    } else {
        inflow_frag_count(boxes.drop_last(), cb) + match inflow_box_metrics(*boxes.last(), cb) {
            Some(_) => 1nat,
            None => 0nat,
        }
    }
}

/// Whether `frags` is exactly the fragment list that laying out `boxes`
/// against `cb` produces: one box fragment per in-flow box, in order, each
/// at the block offset its walk state assigns.
pub open spec fn container_frags_ok(
    boxes: Seq<Arc<BlockLevelBox>>,
    cb: ContainingBlock,
    start_margin_collapsible: bool,
    frags: Seq<Fragment>,
) -> bool
    decreases boxes, 4nat,
{
    if boxes.len() == 0 {
        frags.len() == 0
    } else {
        let b = *boxes.last();
        let st = spec_walk(boxes.drop_last(), cb, start_margin_collapsible);
        match inflow_box_metrics(b, cb) {
            None => container_frags_ok(boxes.drop_last(), cb, start_margin_collapsible, frags),
            Some(m) => {
                &&& frags.len() >= 1
                &&& container_frags_ok(
                    boxes.drop_last(),
                    cb,
                    start_margin_collapsible,
                    frags.drop_last(),
                )
                &&& inflow_fragment_ok(b, cb, spec_step_offset(st, m), frags.last())
            },
        }
    }
}

/// Whether `f` is the fragment of one in-flow box, placed at block offset
/// `offset` within its container's content box.
pub open spec fn inflow_fragment_ok(
    b: BlockLevelBox,
    cb: ContainingBlock,
    offset: int,
    f: Fragment,
) -> bool
    decreases b, 6nat,
{
    match b {
        BlockLevelBox::Independent(ifc) => f matches Fragment::Box(bf) && box_fragment_ok(
            ifc,
            cb,
            offset,
            bf,
        ),
        _ => false,
    }
}

/// Whether `bf` is the box fragment of one in-flow formatting context: its
/// used sizes, sides and collapsed margins all as the specs above state,
/// its inline position after its own margin, border and padding, its block
/// position at `offset` plus its block-start border and padding, and its
/// children laid out inside it (a replaced box instead holds one image
/// fragment covering its content box).
pub closed spec fn box_fragment_ok(
    ifc: IndependentFormattingContext,
    cb: ContainingBlock,
    offset: int,
    bf: BoxFragment,
) -> bool
    decreases ifc, 5nat,
{
    let s = *ifc.style;
    let padding = spec_padding(s, cb.inline_size);
    let border = spec_border(s);
    let margin = spec_margin_used(s, cb.inline_size);
    let pb = spec_pb_sides(s, cb.inline_size);
    let metrics = ifc_metrics(ifc, cb);
    &&& bf.style == ifc.style
    &&& bf.padding == padding
    &&& bf.border == border
    &&& bf.margin == margin
    &&& bf.block_margins_collapsed_with_children == metrics.cbm
    &&& bf.content_rect.start_corner.inline as int == spec_add_sat(
        margin.inline_start as int,
        pb.inline_start as int,
    )
    &&& bf.content_rect.start_corner.block as int == spec_add_sat(pb.block_start as int, offset)
    &&& match ifc.contents {
        IndependentFormattingContextContents::Replaced(rep) => {
            let inline_size = spec_used_inline_size(s, cb, Some(rep));
            let block_size = spec_used_block_size(s, cb, Some(rep), 0i64);
            &&& bf.content_rect.size.inline == inline_size
            &&& bf.content_rect.size.block == block_size
            &&& bf.children@.len() == 1
            &&& bf.children@[0] matches Fragment::Image(imf) && imf.style == ifc.style
                && imf.image_key == rep.image_key && imf.content_rect == (flow_relative::Rect {
                start_corner: flow_relative::Vec2 { inline: 0i64, block: 0i64 },
                size: flow_relative::Vec2 { inline: inline_size, block: block_size },
            })
        },
        IndependentFormattingContextContents::Flow(bfc) => {
            match bfc.contents {
                BlockContainer::BlockLevelBoxes(v) => {
                    let start_collapsible = spec_start_margin_collapsible(s, cb);
                    let end_collapsible = spec_end_margin_collapsible(s, cb);
                    let inner_cb = ContainingBlock {
                        inline_size: spec_used_inline_size(s, cb, None),
                        block_size: spec_inner_block_size(s, cb),
                        mode: s.spec_mode(),
                    };
                    let st = spec_walk(v@, inner_cb, start_collapsible);
                    let content = spec_container_content_size(st, end_collapsible) as i64;
                    &&& bf.content_rect.size.inline == spec_used_inline_size(s, cb, None)
                    &&& bf.content_rect.size.block == spec_used_block_size(s, cb, None, content)
                    &&& container_frags_ok(v@, inner_cb, start_collapsible, bf.children@)
                },
            }
        },
    }
}

/// An absolutely positioned box discovered during an in-flow pass, waiting
/// for its deferred layout, with the sibling index it was discovered at.
pub struct AbsolutelyPositionedFragment {
    pub absolutely_positioned_box: Arc<AbsolutelyPositionedBox>,
    pub tree_rank: usize,
}

/// The absolutely positioned boxes an in-flow pass over `boxes` discovers,
/// in document order, each with the index it holds among its siblings.
/// Boxes nested in floats are not discovered here: float content belongs to
/// the float-placement pass, which is outside this core.
pub open spec fn abs_frags_of(boxes: Seq<Arc<BlockLevelBox>>) -> Seq<AbsolutelyPositionedFragment>
    decreases boxes, 7nat,
{
    if boxes.len() == 0 {
        Seq::empty()
    } else {
        abs_frags_of(boxes.drop_last()) + abs_frags_of_box(
            *boxes.last(),
            (boxes.len() - 1) as usize,
        )
    }
}

/// The absolutely positioned boxes one box contributes to the discovery
/// list.
pub closed spec fn abs_frags_of_box(b: BlockLevelBox, rank: usize) -> Seq<AbsolutelyPositionedFragment>
    decreases b, 8nat,
{
    match b {
        BlockLevelBox::OutOfFlowAbsolutelyPositionedBox(a) => Seq::empty().push(
            AbsolutelyPositionedFragment { absolutely_positioned_box: a, tree_rank: rank },
        ),
        BlockLevelBox::Independent(ifc) => match ifc.contents {
            IndependentFormattingContextContents::Flow(bfc) => match bfc.contents {
                BlockContainer::BlockLevelBoxes(v) => abs_frags_of(v@),
            },
            IndependentFormattingContextContents::Replaced(_) => Seq::empty(),
        },
        BlockLevelBox::OutOfFlowFloatBox(_) => Seq::empty(),
    }
}


// ===========================================================================
// The executable in-flow layout.
// ===========================================================================

/// The absolutely positioned boxes one independent formatting context's
/// contents hand up to the in-flow pass.
pub closed spec fn abs_frags_of_ifc(ifc: IndependentFormattingContext) -> Seq<AbsolutelyPositionedFragment> {
    match ifc.contents {
        IndependentFormattingContextContents::Flow(bfc) => match bfc.contents {
            BlockContainer::BlockLevelBoxes(v) => abs_frags_of(v@),
        },
        IndependentFormattingContextContents::Replaced(_) => Seq::empty(),
    }
}

/// Appending one box extends the walk by one step.
proof fn lemma_walk_push(
    boxes: Seq<Arc<BlockLevelBox>>,
    x: Arc<BlockLevelBox>,
    cb: ContainingBlock,
    sc: bool,
)
    ensures
        spec_walk(boxes.push(x), cb, sc) == (match inflow_box_metrics(*x, cb) {
            Some(m) => spec_step(spec_walk(boxes, cb, sc), m),
            None => spec_walk(boxes, cb, sc),
        }),
{
    assert(boxes.push(x).drop_last() =~= boxes);
    assert(boxes.push(x).last() == x);
}

/// Appending an out-of-flow box leaves the fragment list as it is.
proof fn lemma_container_push_out_of_flow(
    boxes: Seq<Arc<BlockLevelBox>>,
    x: Arc<BlockLevelBox>,
    cb: ContainingBlock,
    sc: bool,
    frags: Seq<Fragment>,
)
    requires
        container_frags_ok(boxes, cb, sc, frags),
        inflow_box_metrics(*x, cb) is None,
    ensures
        container_frags_ok(boxes.push(x), cb, sc, frags),
        inflow_frag_count(boxes.push(x), cb) == inflow_frag_count(boxes, cb),
{
    assert(boxes.push(x).drop_last() =~= boxes);
    assert(boxes.push(x).last() == x);
}

/// Appending an in-flow box appends its fragment.
proof fn lemma_container_push_in_flow(
    boxes: Seq<Arc<BlockLevelBox>>,
    x: Arc<BlockLevelBox>,
    cb: ContainingBlock,
    sc: bool,
    frags: Seq<Fragment>,
    f: Fragment,
    m: BoxMetrics,
)
    requires
        container_frags_ok(boxes, cb, sc, frags),
        inflow_box_metrics(*x, cb) == Some(m),
        inflow_fragment_ok(*x, cb, spec_step_offset(spec_walk(boxes, cb, sc), m), f),
    ensures
        container_frags_ok(boxes.push(x), cb, sc, frags.push(f)),
        inflow_frag_count(boxes.push(x), cb) == inflow_frag_count(boxes, cb) + 1,
{
    assert(boxes.push(x).drop_last() =~= boxes);
    assert(boxes.push(x).last() == x);
    assert(frags.push(f).drop_last() =~= frags);
    assert(frags.push(f).last() == f);
}

/// Appending one box appends its discovered absolutely positioned boxes.
proof fn lemma_abs_frags_push(boxes: Seq<Arc<BlockLevelBox>>, x: Arc<BlockLevelBox>)
    ensures
        abs_frags_of(boxes.push(x)) == abs_frags_of(boxes) + abs_frags_of_box(
            *x,
            boxes.len() as usize,
        ),
{
    assert(boxes.push(x).drop_last() =~= boxes);
    assert(boxes.push(x).last() == x);
}

/// Lays out one in-flow independent formatting context against its
/// containing block, producing its box fragment with a zero block offset
/// (the container walk adds the real offset afterwards), and appending the
/// absolutely positioned boxes its contents discover.
fn layout_box_fragment(
    ifc: &IndependentFormattingContext,
    containing_block: &ContainingBlock,
    absolutely_positioned_fragments: &mut Vec<AbsolutelyPositionedFragment>,
) -> (bf: BoxFragment)
    requires
        containing_block.wf(),
    ensures
        box_fragment_ok(*ifc, *containing_block, 0, bf),
        final(absolutely_positioned_fragments)@ == old(absolutely_positioned_fragments)@
            + abs_frags_of_ifc(*ifc),
        bf.block_margins_collapsed_with_children == ifc_metrics(*ifc, *containing_block).cbm,
        bf.block_margins_collapsed_with_children.wf(),
    decreases *ifc, 0nat,
{
    let style_arc = ifc.style.clone();
    let s: &ComputedStyle = &ifc.style;
    let pbm = resolve_pbm(s, containing_block.inline_size);
    let pb = pbm.padding.add(&pbm.border);
    let box_size = resolve_box_size(s, containing_block);
    match ifc.as_replaced() {
        Ok(rep) => {
            let inline_size = match box_size.inline {
                LengthOrAuto::LengthValue(v) => clamp0(v),
                LengthOrAuto::Auto => intrinsic_inline(rep, s),
            };
            let block_size = match box_size.block {
                LengthOrAuto::LengthValue(v) => clamp0(v),
                LengthOrAuto::Auto => intrinsic_block(rep, s),
            };
            let image = ImageFragment {
                style: style_arc.clone(),
                content_rect: flow_relative::Rect {
                    start_corner: flow_relative::Vec2 { inline: 0, block: 0 },
                    size: flow_relative::Vec2 { inline: inline_size, block: block_size },
                },
                image_key: rep.image_key,
            };
            let mut children: Vec<Fragment> = Vec::new();
            children.push(Fragment::Image(image));
            BoxFragment {
                style: style_arc,
                children,
                content_rect: flow_relative::Rect {
                    start_corner: flow_relative::Vec2 {
                        inline: add_sat(pbm.margin.inline_start, pb.inline_start),
                        block: pb.block_start,
                    },
                    size: flow_relative::Vec2 { inline: inline_size, block: block_size },
                },
                padding: pbm.padding,
                border: pbm.border,
                margin: pbm.margin,
                block_margins_collapsed_with_children: CollapsedBlockMargins::from_margin(
                    &pbm.margin,
                ),
            }
        },
        Err(nr) => {
            let inline_size = match box_size.inline {
                LengthOrAuto::LengthValue(v) => clamp0(v),
                LengthOrAuto::Auto => clamp0(
                    sub_sat(
                        sub_sat(containing_block.inline_size, pbm.margin.inline_sum()),
                        pb.inline_sum(),
                    ),
                ),
            };
            let inner_cb = ContainingBlock {
                inline_size,
                block_size: match box_size.block {
                    LengthOrAuto::LengthValue(v) => LengthOrAuto::LengthValue(clamp0(v)),
                    LengthOrAuto::Auto => LengthOrAuto::Auto,
                },
                mode: s.mode(),
            };
            let start_collapsible = pbm.padding.block_start == 0 && pbm.border.block_start == 0;
            let end_collapsible = pbm.padding.block_end == 0 && pbm.border.block_end == 0
                && matches!(box_size.block, LengthOrAuto::Auto)
                && matches!(containing_block.block_size, LengthOrAuto::Auto);
            let bfc: &BlockFormattingContext = match &nr.0 {
                NonReplacedIFCKind::Flow(b) => *b,
            };
            let boxes: &Vec<Arc<BlockLevelBox>> = match &bfc.contents {
                BlockContainer::BlockLevelBoxes(v) => v,
            };
            proof {
                assert(*bfc == nr.spec_flow());
                assert(decreases_to!(*ifc => (*ifc).contents));
                assert(decreases_to!((*ifc).contents => (*ifc).contents->Flow_0));
                assert((*ifc).contents->Flow_0 == *bfc);
                assert(decreases_to!(*bfc => (*bfc).contents));
                assert(decreases_to!((*bfc).contents => (*bfc).contents->BlockLevelBoxes_0));
                assert((*bfc).contents->BlockLevelBoxes_0 == *boxes);
                assert(decreases_to!(*boxes => boxes@));
                assert(decreases_to!(*ifc => boxes@));
            }
            let (children, st) = layout_block_level_children(
                boxes,
                &inner_cb,
                start_collapsible,
                absolutely_positioned_fragments,
            );
            let content = if end_collapsible {
                st.current_block_position
            } else {
                add_sat(st.current_block_position, st.current_margin.solve())
            };
            let block_size = match box_size.block {
                LengthOrAuto::LengthValue(v) => clamp0(v),
                LengthOrAuto::Auto => match containing_block.block_size {
                    LengthOrAuto::LengthValue(d) => clamp0(
                        sub_sat(sub_sat(d, pbm.margin.block_sum()), pb.block_sum()),
                    ),
                    LengthOrAuto::Auto => clamp0(content),
                },
            };
            let mut start = CollapsedMargin::new(pbm.margin.block_start);
            if start_collapsible {
                start.adjoin_assign(&st.start_margin);
            }
            let mut end = CollapsedMargin::new(pbm.margin.block_end);
            if end_collapsible {
                end.adjoin_assign(&st.current_margin);
            }
            let collapsed_through = start_collapsible && end_collapsible && st.in_start_phase;
            BoxFragment {
                style: style_arc,
                children,
                content_rect: flow_relative::Rect {
                    start_corner: flow_relative::Vec2 {
                        inline: add_sat(pbm.margin.inline_start, pb.inline_start),
                        block: pb.block_start,
                    },
                    size: flow_relative::Vec2 { inline: inline_size, block: block_size },
                },
                padding: pbm.padding,
                border: pbm.border,
                margin: pbm.margin,
                block_margins_collapsed_with_children: CollapsedBlockMargins {
                    collapsed_through,
                    start,
                    end,
                },
            }
        },
    }
}

/// The computed box size of `s` against `cb`, as [`spec_box_size`] states.
fn resolve_box_size(s: &ComputedStyle, cb: &ContainingBlock) -> (r: flow_relative::Vec2<LengthOrAuto>)
    ensures
        r == spec_box_size(*s, *cb),
{
    let (inline_prop, block_prop) = if s.writing_mode == WritingMode::HorizontalTb {
        (s.width, s.height)
    } else {
        (s.height, s.width)
    };
    let v = flow_relative::Vec2 { inline: inline_prop, block: block_prop };
    v.percentages_relative_to(cb)
}

/// The intrinsic inline size of replaced content on the axes of `s`.
fn intrinsic_inline(rep: &ReplacedContent, s: &ComputedStyle) -> (r: Length)
    ensures
        r == spec_intrinsic_inline(*rep, *s),
{
    clamp0(rep.intrinsic_size.size_to_flow_relative(s.mode()).inline)
}

/// The intrinsic block size of replaced content on the axes of `s`.
fn intrinsic_block(rep: &ReplacedContent, s: &ComputedStyle) -> (r: Length)
    ensures
        r == spec_intrinsic_block(*rep, *s),
{
    clamp0(rep.intrinsic_size.size_to_flow_relative(s.mode()).block)
}

/// Walks one container's children in document order: every in-flow box is
/// laid out and stacked along the block axis under margin collapsing, every
/// absolutely positioned box is appended to the accumulator in discovery
/// order, and floats are passed over (their placement is outside this
/// core).
#[verifier::rlimit(60)]
fn layout_block_level_children(
    boxes: &Vec<Arc<BlockLevelBox>>,
    containing_block: &ContainingBlock,
    start_margin_collapsible: bool,
    absolutely_positioned_fragments: &mut Vec<AbsolutelyPositionedFragment>,
) -> (r: (Vec<Fragment>, PlacementState))
    requires
        containing_block.wf(),
    ensures
        container_frags_ok(boxes@, *containing_block, start_margin_collapsible, r.0@),
        r.0@.len() == inflow_frag_count(boxes@, *containing_block),
        r.1 == spec_walk(boxes@, *containing_block, start_margin_collapsible),
        r.1.wf(),
        final(absolutely_positioned_fragments)@ == old(absolutely_positioned_fragments)@
            + abs_frags_of(boxes@),
    decreases boxes@, 1nat,
{
    let mut fragments: Vec<Fragment> = Vec::new();
    let mut st = PlacementState {
        in_start_phase: start_margin_collapsible,
        start_margin: CollapsedMargin::zero(),
        current_margin: CollapsedMargin::zero(),
        current_block_position: 0,
    };
    let mut i: usize = 0;
    proof {
        assert(boxes@.subrange(0, 0) =~= Seq::<Arc<BlockLevelBox>>::empty());
        assert(absolutely_positioned_fragments@ == absolutely_positioned_fragments@
            + abs_frags_of(boxes@.subrange(0, 0)));
    }
    while i < boxes.len()
        invariant
            0 <= i <= boxes@.len(),
            containing_block.wf(),
            container_frags_ok(
                boxes@.subrange(0, i as int),
                *containing_block,
                start_margin_collapsible,
                fragments@,
            ),
            fragments@.len() == inflow_frag_count(boxes@.subrange(0, i as int), *containing_block),
            st == spec_walk(boxes@.subrange(0, i as int), *containing_block, start_margin_collapsible),
            st.wf(),
            absolutely_positioned_fragments@ == old(absolutely_positioned_fragments)@
                + abs_frags_of(boxes@.subrange(0, i as int)),
        decreases boxes@.len() - i,
    {
        let ghost prefix = boxes@.subrange(0, i as int);
        let ghost elem = boxes@[i as int];
        proof {
            assert(prefix.push(elem) =~= boxes@.subrange(0, i as int + 1));
        }
        let b: &BlockLevelBox = &boxes[i];
        match b {
            BlockLevelBox::Independent(ifc) => {
                proof {
                    assert(decreases_to!(boxes@ => boxes@[i as int]));
                    assert(*elem == *b);
                    assert((*b)->Independent_0 == *ifc);
                    assert(decreases_to!(*b => (*b)->Independent_0));
                    assert(decreases_to!(boxes@ => *ifc));
                }
                let mut bf = layout_box_fragment(
                    ifc,
                    containing_block,
                    absolutely_positioned_fragments,
                );
                let pb_sides = bf.padding.add(&bf.border);
                let border_box_block_size = add_sat(
                    pb_sides.block_sum(),
                    bf.content_rect.size.block,
                );
                let m = BoxMetrics {
                    border_box_block_size,
                    cbm: bf.block_margins_collapsed_with_children,
                };
                proof {
                    assert(inflow_box_metrics(*elem, *containing_block) == Some(
                        ifc_metrics(*ifc, *containing_block),
                    ));
                    assert(m == ifc_metrics(*ifc, *containing_block));
                }
                let ghost st_before = st;
                let mut offset: Length = 0;
                if st.in_start_phase {
                    let sm = st.start_margin.adjoin(&m.cbm.start);
                    if m.cbm.collapsed_through {
                        st.start_margin = sm.adjoin(&m.cbm.end);
                    } else {
                        offset = add_sat(st.current_block_position, st.current_margin.solve());
                        st = PlacementState {
                            in_start_phase: false,
                            start_margin: sm,
                            current_margin: m.cbm.end,
                            current_block_position: add_sat(
                                st.current_block_position,
                                add_sat(st.current_margin.solve(), m.border_box_block_size),
                            ),
                        };
                    }
                } else {
                    let cm = st.current_margin.adjoin(&m.cbm.start);
                    offset = add_sat(st.current_block_position, cm.solve());
                    if m.cbm.collapsed_through {
                        st.current_margin = cm.adjoin(&m.cbm.end);
                    } else {
                        st = PlacementState {
                            in_start_phase: false,
                            start_margin: st.start_margin,
                            current_margin: m.cbm.end,
                            current_block_position: add_sat(
                                st.current_block_position,
                                add_sat(cm.solve(), m.border_box_block_size),
                            ),
                        };
                    }
                }
                proof {
                    assert(st == spec_step(st_before, m));
                    assert(offset as int == spec_step_offset(st_before, m));
                }
                bf.content_rect.start_corner.block = add_sat(
                    bf.content_rect.start_corner.block,
                    offset,
                );
                proof {
                    assert(box_fragment_ok(
                        *ifc,
                        *containing_block,
                        spec_step_offset(st_before, m),
                        bf,
                    ));
                    lemma_container_push_in_flow(
                        prefix,
                        elem,
                        *containing_block,
                        start_margin_collapsible,
                        fragments@,
                        Fragment::Box(bf),
                        m,
                    );
                    lemma_walk_push(prefix, elem, *containing_block, start_margin_collapsible);
                    lemma_abs_frags_push(prefix, elem);
                    assert(abs_frags_of_box(*elem, i) =~= abs_frags_of_ifc(*ifc));
                    assert(old(absolutely_positioned_fragments)@ + abs_frags_of(prefix)
                        + abs_frags_of_ifc(*ifc) =~= old(absolutely_positioned_fragments)@
                        + abs_frags_of(prefix.push(elem)));
                }
                fragments.push(Fragment::Box(bf));
            },
            BlockLevelBox::OutOfFlowAbsolutelyPositionedBox(a) => {
                let frag = AbsolutelyPositionedFragment {
                    absolutely_positioned_box: a.clone(),
                    tree_rank: i,
                };
                proof {
                    lemma_container_push_out_of_flow(
                        prefix,
                        elem,
                        *containing_block,
                        start_margin_collapsible,
                        fragments@,
                    );
                    lemma_walk_push(prefix, elem, *containing_block, start_margin_collapsible);
                    lemma_abs_frags_push(prefix, elem);
                    assert(abs_frags_of_box(*elem, i) =~= Seq::empty().push(frag));
                    assert(old(absolutely_positioned_fragments)@ + abs_frags_of(prefix)
                        + Seq::empty().push(frag) =~= (old(absolutely_positioned_fragments)@
                        + abs_frags_of(prefix)).push(frag));
                    assert((old(absolutely_positioned_fragments)@ + abs_frags_of(prefix)).push(frag)
                        =~= old(absolutely_positioned_fragments)@ + abs_frags_of(
                        prefix.push(elem),
                    ));
                }
                absolutely_positioned_fragments.push(frag);
            },
            BlockLevelBox::OutOfFlowFloatBox(_) => {
                proof {
                    lemma_container_push_out_of_flow(
                        prefix,
                        elem,
                        *containing_block,
                        start_margin_collapsible,
                        fragments@,
                    );
                    lemma_walk_push(prefix, elem, *containing_block, start_margin_collapsible);
                    lemma_abs_frags_push(prefix, elem);
                    assert(abs_frags_of_box(*elem, i) =~= Seq::<AbsolutelyPositionedFragment>::empty());
                    assert(old(absolutely_positioned_fragments)@ + abs_frags_of(prefix)
                        + Seq::<AbsolutelyPositionedFragment>::empty() =~= old(
                        absolutely_positioned_fragments,
                    )@ + abs_frags_of(prefix.push(elem)));
                }
            },
        }
        i += 1;
    }
    proof {
        assert(boxes@.subrange(0, boxes@.len() as int) =~= boxes@);
    }
    (fragments, st)
}



// ===========================================================================
// Layout entry points for one formatting context.
// ===========================================================================

/// The box list of a block formatting context.
pub open spec fn bfc_boxes(bfc: BlockFormattingContext) -> Seq<Arc<BlockLevelBox>> {
    match bfc.contents {
        BlockContainer::BlockLevelBoxes(v) => v@,
    }
}

/// What `BlockFormattingContext::layout` produces: the in-flow fragments of
/// the context's boxes, and the content block size of the finished walk
/// with the trailing margin included (nothing above a formatting context
/// root collapses it away).
pub open spec fn bfc_layout_ok(
    bfc: BlockFormattingContext,
    cb: ContainingBlock,
    frags: Seq<Fragment>,
    content_block_size: Length,
) -> bool {
    &&& container_frags_ok(bfc_boxes(bfc), cb, false, frags)
    &&& frags.len() == inflow_frag_count(bfc_boxes(bfc), cb)
    &&& content_block_size as int == spec_container_content_size(
        spec_walk(bfc_boxes(bfc), cb, false),
        false,
    )
}

/// The absolutely positioned boxes one layout pass over the context
/// discovers, in discovery order.
pub open spec fn bfc_abs_frags(bfc: BlockFormattingContext) -> Seq<AbsolutelyPositionedFragment> {
    abs_frags_of(bfc_boxes(bfc))
}

/// A formatting context with no boxes lays out to an empty fragment list
/// with a zero content block size.
pub proof fn lemma_empty_context_layout(
    bfc: BlockFormattingContext,
    cb: ContainingBlock,
    frags: Seq<Fragment>,
    content_block_size: Length,
)
    requires
        bfc_layout_ok(bfc, cb, frags, content_block_size),
        bfc_boxes(bfc).len() == 0,
    ensures
        frags.len() == 0,
        content_block_size == 0,
{
}

impl BlockFormattingContext {
    /// Lays out the context's boxes against a containing block: the in-flow
    /// pass.  Absolutely positioned boxes are appended to the accumulator in
    /// discovery order instead of being laid out, because their true
    /// containing block is not known mid-walk.
    pub fn layout(
        &self,
        containing_block: &ContainingBlock,
        tree_rank: usize,
        absolutely_positioned_fragments: &mut Vec<AbsolutelyPositionedFragment>,
    ) -> (r: IndependentLayout)
        requires
            containing_block.wf(),
        ensures
            bfc_layout_ok(*self, *containing_block, r.fragments@, r.content_block_size),
            final(absolutely_positioned_fragments)@ == old(absolutely_positioned_fragments)@
                + bfc_abs_frags(*self),
    {
        let _ = tree_rank;
        let boxes: &Vec<Arc<BlockLevelBox>> = match &self.contents {
            BlockContainer::BlockLevelBoxes(v) => v,
        };
        let (fragments, st) = layout_block_level_children(
            boxes,
            containing_block,
            false,
            absolutely_positioned_fragments,
        );
        let content_block_size = add_sat(st.current_block_position, st.current_margin.solve());
        IndependentLayout { fragments, content_block_size }
    }
}

impl<'a> NonReplacedIFC<'a> {
    /// Lays out the flow contents this handle narrows to.
    pub fn layout(
        &self,
        containing_block: &ContainingBlock,
        tree_rank: usize,
        absolutely_positioned_fragments: &mut Vec<AbsolutelyPositionedFragment>,
    ) -> (r: IndependentLayout)
        requires
            containing_block.wf(),
        ensures
            bfc_layout_ok(self.spec_flow(), *containing_block, r.fragments@, r.content_block_size),
            final(absolutely_positioned_fragments)@ == old(absolutely_positioned_fragments)@
                + bfc_abs_frags(self.spec_flow()),
    {
        match &self.0 {
            NonReplacedIFCKind::Flow(bfc) => {
                proof {
                    assert(**bfc == self.spec_flow());
                }
                bfc.layout(containing_block, tree_rank, absolutely_positioned_fragments)
            },
        }
    }
}

// ===========================================================================
// Deferred layout of absolutely positioned boxes.
// ===========================================================================

/// An inset that is still `auto` falls back to the containing block's
/// origin: static-position propagation is outside this core.
pub open spec fn spec_inset_or_zero(v: LengthOrAuto) -> Length {
    spec_auto_zero(v)
}

/// The used inline size of an absolutely positioned box: its computed
/// size, or the intrinsic size for replaced content, or the containing
/// block less insets, margins, border and padding.
pub open spec fn spec_abs_inline_size(
    s: ComputedStyle,
    cb: DefiniteContainingBlock,
    replaced: Option<ReplacedContent>,
) -> Length {
    let cb_flow = ContainingBlock {
        inline_size: cb.size.inline,
        block_size: LengthOrAuto::LengthValue(cb.size.block),
        mode: cb.mode,
    };
    match spec_box_size(s, cb_flow).inline {
        LengthOrAuto::LengthValue(v) => spec_clamp0(v as int) as i64,
        LengthOrAuto::Auto => match replaced {
            Some(rep) => spec_intrinsic_inline(rep, s),
            None => {
                let inset = spec_abs_insets(s, cb);
                let margin_sum = spec_inline_sum(spec_margin_used(s, cb.size.inline));
                let pb_sum = spec_inline_sum(spec_pb_sides(s, cb.size.inline));
                spec_clamp0(
                    spec_sub_sat(
                        spec_sub_sat(
                            spec_sub_sat(
                                spec_sub_sat(
                                    cb.size.inline as int,
                                    spec_inset_or_zero(inset.inline_start) as int,
                                ) as int,
                                spec_inset_or_zero(inset.inline_end) as int,
                            ) as int,
                            margin_sum,
                        ) as int,
                        pb_sum,
                    ),
                ) as i64
            },
        },
    }
}

/// The box's insets on its own flow-relative axes, percentages resolved
/// against the matching axis of the containing block.
pub open spec fn spec_abs_insets(s: ComputedStyle, cb: DefiniteContainingBlock) -> flow_relative::Sides<LengthOrAuto> {
    let fr = spec_sides_to_flow_relative(s.inset, s.spec_mode());
    flow_relative::Sides {
        inline_start: spec_resolve_or_auto(fr.inline_start, cb.size.inline as int),
        inline_end: spec_resolve_or_auto(fr.inline_end, cb.size.inline as int),
        block_start: spec_resolve_or_auto(fr.block_start, cb.size.block as int),
        block_end: spec_resolve_or_auto(fr.block_end, cb.size.block as int),
    }
}

/// The margin-box position of an absolutely positioned box on one axis:
/// the start inset where given; where only the end inset is given, the
/// containing block's extent less the end inset and the margin-box size;
/// with both insets `auto`, the containing block's origin.
pub open spec fn spec_abs_axis_position(
    start: LengthOrAuto,
    end: LengthOrAuto,
    cb_extent: Length,
    outer_size: Length,
) -> Length {
    match start {
        LengthOrAuto::LengthValue(v) => v,
        LengthOrAuto::Auto => match end {
            LengthOrAuto::LengthValue(e) => spec_sub_sat(
                spec_sub_sat(cb_extent as int, e as int) as int,
                outer_size as int,
            ) as i64,
            LengthOrAuto::Auto => 0i64,
        },
    }
}

/// How many fragments the absolutely positioned descendants of `boxes`
/// produce in the deferred pass that owns them.
pub open spec fn abs_count(boxes: Seq<Arc<BlockLevelBox>>) -> nat
    decreases boxes, 12nat,
{
    if boxes.len() == 0 {
        0
    } else {
        abs_count(boxes.drop_last()) + abs_box_frag_count(*boxes.last())
    }
}

/// How many deferred fragments one box contributes.
pub closed spec fn abs_box_frag_count(b: BlockLevelBox) -> nat
    decreases b, 13nat,
{
    match b {
        BlockLevelBox::OutOfFlowAbsolutelyPositionedBox(_) => 1,
        BlockLevelBox::Independent(ifc) => match ifc.contents {
            IndependentFormattingContextContents::Flow(bfc) => match bfc.contents {
                BlockContainer::BlockLevelBoxes(v) => abs_count(v@),
            },
            IndependentFormattingContextContents::Replaced(_) => 0,
        },
        BlockLevelBox::OutOfFlowFloatBox(_) => 0,
    }
}

/// Whether `f` is the fragment of one absolutely positioned box laid out
/// against the definite containing block `cb`: sized by its computed size,
/// intrinsic size or the inset-reduced available space; positioned by its
/// insets; its in-flow children laid out inside it and its own absolutely
/// positioned descendants appended after them, laid out against its padding
/// box.  `origin` is the containing block's origin, expressed in the
/// coordinate space the fragment is stored in.
pub open spec fn abs_fragment_ok(
    bx: AbsolutelyPositionedBox,
    cb: DefiniteContainingBlock,
    origin: flow_relative::Vec2<Length>,
    f: Fragment,
) -> bool
    decreases bx, 9nat,
{
    f matches Fragment::Box(bf) && abs_box_fragment_ok(bx.contents, cb, origin, bf)
}

/// The box-fragment half of [`abs_fragment_ok`].
pub closed spec fn abs_box_fragment_ok(
    ifc: IndependentFormattingContext,
    cb: DefiniteContainingBlock,
    origin: flow_relative::Vec2<Length>,
    bf: BoxFragment,
) -> bool
    decreases ifc, 8nat,
{
    let s = *ifc.style;
    let padding = spec_padding(s, cb.size.inline);
    let border = spec_border(s);
    let margin = spec_margin_used(s, cb.size.inline);
    let pb = spec_pb_sides(s, cb.size.inline);
    let inset = spec_abs_insets(s, cb);
    let cb_flow = ContainingBlock {
        inline_size: cb.size.inline,
        block_size: LengthOrAuto::LengthValue(cb.size.block),
        mode: cb.mode,
    };
    let inline_size = spec_abs_inline_size(s, cb, match ifc.contents {
        IndependentFormattingContextContents::Replaced(rep) => Some(rep),
        IndependentFormattingContextContents::Flow(_) => None,
    });
    let outer_inline = spec_add_sat(
        inline_size as int,
        spec_add_sat(spec_inline_sum(margin), spec_inline_sum(pb)),
    ) as i64;
    let inline_position = spec_abs_axis_position(
        inset.inline_start,
        inset.inline_end,
        cb.size.inline,
        outer_inline,
    );
    &&& bf.style == ifc.style
    &&& bf.padding == padding
    &&& bf.border == border
    &&& bf.margin == margin
    &&& bf.block_margins_collapsed_with_children == (CollapsedBlockMargins {
        collapsed_through: false,
        start: CollapsedMargin::spec_zero(),
        end: CollapsedMargin::spec_zero(),
    })
    &&& bf.content_rect.size.inline == inline_size
    &&& bf.content_rect.start_corner.inline as int == spec_add_sat(
        origin.inline as int,
        spec_add_sat(
            inline_position as int,
            spec_add_sat(margin.inline_start as int, pb.inline_start as int),
        ),
    )
    &&& match ifc.contents {
        IndependentFormattingContextContents::Replaced(rep) => {
            let block_size = match spec_box_size(s, cb_flow).block {
                LengthOrAuto::LengthValue(v) => spec_clamp0(v as int) as i64,
                LengthOrAuto::Auto => spec_intrinsic_block(rep, s),
            };
            let outer_block = spec_add_sat(
                block_size as int,
                spec_add_sat(spec_block_sum(margin), spec_block_sum(pb)),
            ) as i64;
            let block_position = spec_abs_axis_position(
                inset.block_start,
                inset.block_end,
                cb.size.block,
                outer_block,
            );
            &&& bf.content_rect.size.block == block_size
            &&& bf.content_rect.start_corner.block as int == spec_add_sat(
                origin.block as int,
                spec_add_sat(
                    block_position as int,
                    spec_add_sat(margin.block_start as int, pb.block_start as int),
                ),
            )
            &&& bf.children@.len() == 1
            &&& bf.children@[0] matches Fragment::Image(imf) && imf.style == ifc.style
                && imf.image_key == rep.image_key && imf.content_rect == (flow_relative::Rect {
                start_corner: flow_relative::Vec2 { inline: 0i64, block: 0i64 },
                size: flow_relative::Vec2 {
                    inline: inline_size,
                    block: bf.content_rect.size.block,
                },
            })
        },
        IndependentFormattingContextContents::Flow(bfc) => {
            match bfc.contents {
                BlockContainer::BlockLevelBoxes(v) => {
                    let inner_cb = ContainingBlock {
                        inline_size,
                        block_size: spec_inner_block_size(s, cb_flow),
                        mode: s.spec_mode(),
                    };
                    let st = spec_walk(v@, inner_cb, false);
                    let content = spec_container_content_size(st, false) as i64;
                    let block_size = match spec_box_size(s, cb_flow).block {
                        LengthOrAuto::LengthValue(h) => spec_clamp0(h as int) as i64,
                        LengthOrAuto::Auto => spec_clamp0(content as int) as i64,
                    };
                    let outer_block = spec_add_sat(
                        block_size as int,
                        spec_add_sat(spec_block_sum(margin), spec_block_sum(pb)),
                    ) as i64;
                    let block_position = spec_abs_axis_position(
                        inset.block_start,
                        inset.block_end,
                        cb.size.block,
                        outer_block,
                    );
                    let padding_cb = DefiniteContainingBlock {
                        size: flow_relative::Vec2 {
                            inline: spec_add_sat(
                                inline_size as int,
                                spec_inline_sum(padding),
                            ) as i64,
                            block: spec_add_sat(block_size as int, spec_block_sum(padding)) as i64,
                        },
                        mode: s.spec_mode(),
                    };
                    let k = inflow_frag_count(v@, inner_cb);
                    let child_origin = flow_relative::Vec2 {
                        inline: spec_sub_sat(0, padding.inline_start as int) as i64,
                        block: spec_sub_sat(0, padding.block_start as int) as i64,
                    };
                    &&& bf.content_rect.size.block == block_size
                    &&& bf.content_rect.start_corner.block as int == spec_add_sat(
                        origin.block as int,
                        spec_add_sat(
                            block_position as int,
                            spec_add_sat(margin.block_start as int, pb.block_start as int),
                        ),
                    )
                    &&& bf.children@.len() == k + abs_count(v@)
                    &&& container_frags_ok(v@, inner_cb, false, bf.children@.take(k as int))
                    &&& abs_descendants_ok(v@, padding_cb, child_origin, bf.children@.skip(k as int))
                },
            }
        },
    }
}

/// Whether `frags` is the deferred-pass fragment list of the absolutely
/// positioned descendants of `boxes`, in discovery order, each laid out
/// against `cb`, whose origin in the fragments' coordinate space is
/// `origin`.
pub open spec fn abs_descendants_ok(
    boxes: Seq<Arc<BlockLevelBox>>,
    cb: DefiniteContainingBlock,
    origin: flow_relative::Vec2<Length>,
    frags: Seq<Fragment>,
) -> bool
    decreases boxes, 10nat,
{
    if boxes.len() == 0 {
        frags.len() == 0
    } else {
        let c = abs_box_frag_count(*boxes.last());
        &&& frags.len() >= c
        &&& abs_descendants_ok(boxes.drop_last(), cb, origin, frags.take(frags.len() - c))
        &&& abs_box_frags_ok(*boxes.last(), cb, origin, frags.skip(frags.len() - c))
    }
}

/// The deferred-pass fragments one box contributes: its own fragment for an
/// absolutely positioned box, its in-flow contents' absolutely positioned
/// descendants for an in-flow box, nothing for floats and replaced content.
pub closed spec fn abs_box_frags_ok(
    b: BlockLevelBox,
    cb: DefiniteContainingBlock,
    origin: flow_relative::Vec2<Length>,
    frags: Seq<Fragment>,
) -> bool
    decreases b, 11nat,
{
    match b {
        BlockLevelBox::OutOfFlowAbsolutelyPositionedBox(a) => frags.len() == 1 && abs_fragment_ok(
            *a,
            cb,
            origin,
            frags[0],
        ),
        BlockLevelBox::Independent(ifc) => match ifc.contents {
            IndependentFormattingContextContents::Flow(bfc) => match bfc.contents {
                BlockContainer::BlockLevelBoxes(v) => abs_descendants_ok(v@, cb, origin, frags),
            },
            IndependentFormattingContextContents::Replaced(_) => frags.len() == 0,
        },
        BlockLevelBox::OutOfFlowFloatBox(_) => frags.len() == 0,
    }
}



/// Appending one box appends its deferred-pass fragments.
proof fn lemma_abs_desc_push(
    boxes: Seq<Arc<BlockLevelBox>>,
    x: Arc<BlockLevelBox>,
    cb: DefiniteContainingBlock,
    origin: flow_relative::Vec2<Length>,
    frags: Seq<Fragment>,
    chunk: Seq<Fragment>,
)
    requires
        abs_descendants_ok(boxes, cb, origin, frags),
        abs_box_frags_ok(*x, cb, origin, chunk),
        chunk.len() == abs_box_frag_count(*x),
    ensures
        abs_descendants_ok(boxes.push(x), cb, origin, frags + chunk),
        abs_count(boxes.push(x)) == abs_count(boxes) + abs_box_frag_count(*x),
{
    let combined = frags + chunk;
    assert(boxes.push(x).drop_last() =~= boxes);
    assert(boxes.push(x).last() == x);
    assert(combined.take(combined.len() - chunk.len()) =~= frags);
    assert(combined.skip(combined.len() - chunk.len()) =~= chunk);
}

/// Lays out one absolutely positioned box against the definite containing
/// block that owns it, producing its whole fragment subtree: the in-flow
/// contents first, then its own absolutely positioned descendants, laid
/// out against its padding box.
pub fn layout_absolute(
    absolutely_positioned_box: &AbsolutelyPositionedBox,
    containing_block: &DefiniteContainingBlock,
    origin: flow_relative::Vec2<Length>,
) -> (f: Fragment)
    requires
        containing_block.wf(),
    ensures
        abs_fragment_ok(*absolutely_positioned_box, *containing_block, origin, f),
    decreases *absolutely_positioned_box, 0nat,
{
    let ifc = &absolutely_positioned_box.contents;
    proof {
        assert(decreases_to!(*absolutely_positioned_box => (*absolutely_positioned_box).contents));
    }
    let style_arc = ifc.style.clone();
    let s: &ComputedStyle = &ifc.style;
    let cb = containing_block;
    let pbm = resolve_pbm(s, cb.size.inline);
    let pb = pbm.padding.add(&pbm.border);
    let cb_flow = ContainingBlock {
        inline_size: cb.size.inline,
        block_size: LengthOrAuto::LengthValue(cb.size.block),
        mode: cb.mode,
    };
    let box_size = resolve_box_size(s, &cb_flow);
    let inset_fr = s.inset.to_flow_relative(s.mode());
    let inset = flow_relative::Sides {
        inline_start: inset_fr.inline_start.percentage_relative_to(cb.size.inline),
        inline_end: inset_fr.inline_end.percentage_relative_to(cb.size.inline),
        block_start: inset_fr.block_start.percentage_relative_to(cb.size.block),
        block_end: inset_fr.block_end.percentage_relative_to(cb.size.block),
    };
    match ifc.as_replaced() {
        Ok(rep) => {
            let inline_size = match box_size.inline {
                LengthOrAuto::LengthValue(v) => clamp0(v),
                LengthOrAuto::Auto => intrinsic_inline(rep, s),
            };
            let block_size = match box_size.block {
                LengthOrAuto::LengthValue(v) => clamp0(v),
                LengthOrAuto::Auto => intrinsic_block(rep, s),
            };
            let outer_inline = add_sat(
                inline_size,
                add_sat(pbm.margin.inline_sum(), pb.inline_sum()),
            );
            let outer_block = add_sat(block_size, add_sat(pbm.margin.block_sum(), pb.block_sum()));
            let inline_position = abs_axis_position(
                inset.inline_start,
                inset.inline_end,
                cb.size.inline,
                outer_inline,
            );
            let block_position = abs_axis_position(
                inset.block_start,
                inset.block_end,
                cb.size.block,
                outer_block,
            );
            let image = ImageFragment {
                style: style_arc.clone(),
                content_rect: flow_relative::Rect {
                    start_corner: flow_relative::Vec2 { inline: 0, block: 0 },
                    size: flow_relative::Vec2 { inline: inline_size, block: block_size },
                },
                image_key: rep.image_key,
            };
            let mut children: Vec<Fragment> = Vec::new();
            children.push(Fragment::Image(image));
            Fragment::Box(
                BoxFragment {
                    style: style_arc,
                    children,
                    content_rect: flow_relative::Rect {
                        start_corner: flow_relative::Vec2 {
                            inline: add_sat(
                                origin.inline,
                                add_sat(
                                    inline_position,
                                    add_sat(pbm.margin.inline_start, pb.inline_start),
                                ),
                            ),
                            block: add_sat(
                                origin.block,
                                add_sat(
                                    block_position,
                                    add_sat(pbm.margin.block_start, pb.block_start),
                                ),
                            ),
                        },
                        size: flow_relative::Vec2 { inline: inline_size, block: block_size },
                    },
                    padding: pbm.padding,
                    border: pbm.border,
                    margin: pbm.margin,
                    block_margins_collapsed_with_children: CollapsedBlockMargins::zero(),
                },
            )
        },
        Err(nr) => {
            let inline_size = match box_size.inline {
                LengthOrAuto::LengthValue(v) => clamp0(v),
                LengthOrAuto::Auto => clamp0(
                    sub_sat(
                        sub_sat(
                            sub_sat(
                                sub_sat(cb.size.inline, auto_zero(inset.inline_start)),
                                auto_zero(inset.inline_end),
                            ),
                            pbm.margin.inline_sum(),
                        ),
                        pb.inline_sum(),
                    ),
                ),
            };
            let inner_cb = ContainingBlock {
                inline_size,
                block_size: match box_size.block {
                    LengthOrAuto::LengthValue(v) => LengthOrAuto::LengthValue(clamp0(v)),
                    LengthOrAuto::Auto => LengthOrAuto::Auto,
                },
                mode: s.mode(),
            };
            let bfc: &BlockFormattingContext = match &nr.0 {
                NonReplacedIFCKind::Flow(b) => *b,
            };
            let boxes: &Vec<Arc<BlockLevelBox>> = match &bfc.contents {
                BlockContainer::BlockLevelBoxes(v) => v,
            };
            proof {
                let abox = *absolutely_positioned_box;
                assert(*bfc == nr.spec_flow());
                assert(decreases_to!(abox.contents => abox.contents.contents));
                assert(decreases_to!(abox.contents.contents => abox.contents.contents->Flow_0));
                assert(abox.contents.contents->Flow_0 == *bfc);
                assert(decreases_to!(*bfc => (*bfc).contents));
                assert(decreases_to!((*bfc).contents => (*bfc).contents->BlockLevelBoxes_0));
                assert((*bfc).contents->BlockLevelBoxes_0 == *boxes);
                assert(decreases_to!(*boxes => boxes@));
                assert(decreases_to!(abox => boxes@));
            }
            let mut discovered: Vec<AbsolutelyPositionedFragment> = Vec::new();
            let (mut children, st) = layout_block_level_children(
                boxes,
                &inner_cb,
                false,
                &mut discovered,
            );
            let content = add_sat(st.current_block_position, st.current_margin.solve());
            let block_size = match box_size.block {
                LengthOrAuto::LengthValue(h) => clamp0(h),
                LengthOrAuto::Auto => clamp0(content),
            };
            let outer_inline = add_sat(
                inline_size,
                add_sat(pbm.margin.inline_sum(), pb.inline_sum()),
            );
            let outer_block = add_sat(block_size, add_sat(pbm.margin.block_sum(), pb.block_sum()));
            let inline_position = abs_axis_position(
                inset.inline_start,
                inset.inline_end,
                cb.size.inline,
                outer_inline,
            );
            let block_position = abs_axis_position(
                inset.block_start,
                inset.block_end,
                cb.size.block,
                outer_block,
            );
            let padding_cb = DefiniteContainingBlock {
                size: flow_relative::Vec2 {
                    inline: add_sat(inline_size, pbm.padding.inline_sum()),
                    block: add_sat(block_size, pbm.padding.block_sum()),
                },
                mode: s.mode(),
            };
            let child_origin = flow_relative::Vec2 {
                inline: sub_sat(0, pbm.padding.inline_start),
                block: sub_sat(0, pbm.padding.block_start),
            };
            let ghost inflow_children = children@;
            let mut abs_children = layout_abs_descendants(boxes, &padding_cb, child_origin);
            let ghost abs_part = abs_children@;
            children.append(&mut abs_children);
            proof {
                assert(children@.take(inflow_children.len() as int) =~= inflow_children);
                assert(children@.skip(inflow_children.len() as int) =~= abs_part);
            }
            Fragment::Box(
                BoxFragment {
                    style: style_arc,
                    children,
                    content_rect: flow_relative::Rect {
                        start_corner: flow_relative::Vec2 {
                            inline: add_sat(
                                origin.inline,
                                add_sat(
                                    inline_position,
                                    add_sat(pbm.margin.inline_start, pb.inline_start),
                                ),
                            ),
                            block: add_sat(
                                origin.block,
                                add_sat(
                                    block_position,
                                    add_sat(pbm.margin.block_start, pb.block_start),
                                ),
                            ),
                        },
                        size: flow_relative::Vec2 { inline: inline_size, block: block_size },
                    },
                    padding: pbm.padding,
                    border: pbm.border,
                    margin: pbm.margin,
                    block_margins_collapsed_with_children: CollapsedBlockMargins::zero(),
                },
            )
        },
    }
}

/// The margin-box position on one axis from the two insets, as
/// [`spec_abs_axis_position`] states.
fn abs_axis_position(
    start: LengthOrAuto,
    end: LengthOrAuto,
    cb_extent: Length,
    outer_size: Length,
) -> (r: Length)
    ensures
        r == spec_abs_axis_position(start, end, cb_extent, outer_size),
{
    match start {
        LengthOrAuto::LengthValue(v) => v,
        LengthOrAuto::Auto => match end {
            LengthOrAuto::LengthValue(e) => sub_sat(sub_sat(cb_extent, e), outer_size),
            LengthOrAuto::Auto => 0,
        },
    }
}

/// Walks a box tree structurally and lays out every absolutely positioned
/// descendant that the in-flow pass over these boxes would discover,
/// against `cb`, in discovery order.
fn layout_abs_descendants(
    boxes: &Vec<Arc<BlockLevelBox>>,
    cb: &DefiniteContainingBlock,
    origin: flow_relative::Vec2<Length>,
) -> (r: Vec<Fragment>)
    requires
        cb.wf(),
    ensures
        abs_descendants_ok(boxes@, *cb, origin, r@),
        r@.len() == abs_count(boxes@),
    decreases boxes@, 1nat,
{
    let mut out: Vec<Fragment> = Vec::new();
    let mut i: usize = 0;
    proof {
        assert(boxes@.subrange(0, 0) =~= Seq::<Arc<BlockLevelBox>>::empty());
    }
    while i < boxes.len()
        invariant
            0 <= i <= boxes@.len(),
            cb.wf(),
            abs_descendants_ok(boxes@.subrange(0, i as int), *cb, origin, out@),
            out@.len() == abs_count(boxes@.subrange(0, i as int)),
        decreases boxes@.len() - i,
    {
        let ghost prefix = boxes@.subrange(0, i as int);
        let ghost elem = boxes@[i as int];
        proof {
            assert(prefix.push(elem) =~= boxes@.subrange(0, i as int + 1));
            assert(decreases_to!(boxes@ => boxes@[i as int]));
        }
        let b: &BlockLevelBox = &boxes[i];
        match b {
            BlockLevelBox::OutOfFlowAbsolutelyPositionedBox(a) => {
                let inner: &AbsolutelyPositionedBox = a;
                proof {
                    assert((*b)->OutOfFlowAbsolutelyPositionedBox_0 == *inner);
                    assert(decreases_to!(*b => (*b)->OutOfFlowAbsolutelyPositionedBox_0));
                    assert(decreases_to!(boxes@ => *inner));
                }
                let f = layout_absolute(inner, cb, origin);
                proof {
                    let chunk = Seq::<Fragment>::empty().push(f);
                    assert(chunk.skip(0) =~= chunk);
                    assert(abs_box_frags_ok(*elem, *cb, origin, chunk));
                    lemma_abs_desc_push(prefix, elem, *cb, origin, out@, chunk);
                    assert(out@ + chunk =~= out@.push(f));
                }
                out.push(f);
            },
            BlockLevelBox::Independent(ifc) => {
                match ifc.as_replaced() {
                    Ok(_) => {
                        proof {
                            let chunk = Seq::<Fragment>::empty();
                            assert(abs_box_frags_ok(*elem, *cb, origin, chunk));
                            lemma_abs_desc_push(prefix, elem, *cb, origin, out@, chunk);
                            assert(out@ + Seq::<Fragment>::empty() =~= out@);
                        }
                    },
                    Err(nr) => {
                        let bfc: &BlockFormattingContext = match &nr.0 {
                            NonReplacedIFCKind::Flow(x) => *x,
                        };
                        let inner_boxes: &Vec<Arc<BlockLevelBox>> = match &bfc.contents {
                            BlockContainer::BlockLevelBoxes(v) => v,
                        };
                        proof {
                            assert(*bfc == nr.spec_flow());
                            assert((*b)->Independent_0 == *ifc);
                            assert(decreases_to!(*b => (*b)->Independent_0));
                            assert(decreases_to!(*ifc => (*ifc).contents));
                            assert(decreases_to!((*ifc).contents => (*ifc).contents->Flow_0));
                            assert((*ifc).contents->Flow_0 == *bfc);
                            assert(decreases_to!(*bfc => (*bfc).contents));
                            assert(decreases_to!((*bfc).contents => (*bfc).contents->BlockLevelBoxes_0));
                            assert((*bfc).contents->BlockLevelBoxes_0 == *inner_boxes);
                            assert(decreases_to!(*inner_boxes => inner_boxes@));
                            assert(decreases_to!(boxes@ => inner_boxes@));
                        }
                        let mut chunk = layout_abs_descendants(inner_boxes, cb, origin);
                        proof {
                            assert(abs_box_frags_ok(*elem, *cb, origin, chunk@));
                            lemma_abs_desc_push(prefix, elem, *cb, origin, out@, chunk@);
                        }
                        out.append(&mut chunk);
                    },
                }
            },
            BlockLevelBox::OutOfFlowFloatBox(_) => {
                proof {
                    let chunk = Seq::<Fragment>::empty();
                    assert(abs_box_frags_ok(*elem, *cb, origin, chunk));
                    lemma_abs_desc_push(prefix, elem, *cb, origin, out@, chunk);
                    assert(out@ + Seq::<Fragment>::empty() =~= out@);
                }
            },
        }
        i += 1;
    }
    proof {
        assert(boxes@.subrange(0, boxes@.len() as int) =~= boxes@);
    }
    out
}


} // verus!

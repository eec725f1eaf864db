//! End-to-end layout passes: box-tree construction, the in-flow walk with
//! margin collapsing, and deferred absolute positioning.

use std::sync::Arc;

use layout_2020::dom_traversal::StyledNode;
use layout_2020::flow::root::BoxTreeRoot;
use layout_2020::fragments::Fragment;
use layout_2020::geom::physical;
use layout_2020::length::{LengthOrAuto, LengthPercentage, LengthPercentageOrAuto};
use layout_2020::replaced::ReplacedContent;
use layout_2020::style_ext::{ComputedStyle, Display, Position};
use layout_2020::ContainingBlock;

fn px(v: i64) -> LengthPercentageOrAuto {
    LengthPercentageOrAuto::LengthPercentage(LengthPercentage { length: v, percent: 0 })
}

fn node(style: ComputedStyle, children: Vec<StyledNode>) -> StyledNode {
    StyledNode { style: Arc::new(style), replaced: None, children }
}

fn viewport() -> physical::Vec2<i64> {
    physical::Vec2 { x: 800, y: 600 }
}

#[test]
fn auto_sized_root_fills_the_viewport() {
    let root = StyledNode::leaf(ComputedStyle::initial());
    let tree = BoxTreeRoot::construct(&root);
    let fragments = tree.layout(viewport());
    assert_eq!(fragments.0.len(), 1);
    match &fragments.0[0] {
        Fragment::Box(bf) => {
            let border = bf.border_rect();
            assert_eq!(border.start_corner.inline, 0);
            assert_eq!(border.start_corner.block, 0);
            assert_eq!(border.size.inline, 800);
            assert_eq!(border.size.block, 600);
        },
        _ => panic!("expected a box fragment for the root element"),
    }
}

#[test]
fn display_none_root_yields_no_boxes_and_an_empty_layout() {
    let mut style = ComputedStyle::initial();
    style.display = Display::NoneValue;
    let root = StyledNode::leaf(style);
    let tree = BoxTreeRoot::construct(&root);

    let containing_block = ContainingBlock {
        inline_size: 800,
        block_size: LengthOrAuto::LengthValue(600),
        mode: ComputedStyle::initial().mode(),
    };
    let mut absolutes = Vec::new();
    let independent = tree.0.layout(&containing_block, 0, &mut absolutes);
    assert_eq!(independent.fragments.len(), 0);
    assert_eq!(independent.content_block_size, 0);
    assert_eq!(absolutes.len(), 0);

    let fragments = tree.layout(viewport());
    assert_eq!(fragments.0.len(), 0);
}

#[test]
fn display_contents_on_replaced_content_computes_to_none() {
    let mut style = ComputedStyle::initial();
    style.display = Display::Contents;
    let root = StyledNode {
        style: Arc::new(style),
        replaced: Some(ReplacedContent {
            intrinsic_size: physical::Vec2 { x: 50, y: 30 },
            image_key: 1,
        }),
        children: Vec::new(),
    };
    let tree = BoxTreeRoot::construct(&root);
    let fragments = tree.layout(viewport());
    assert_eq!(fragments.0.len(), 0);
}

#[test]
fn sibling_margins_collapse_by_extremes_not_by_sum() {
    let mut child1_style = ComputedStyle::initial();
    child1_style.height = px(10);
    child1_style.margin.bottom = px(10);
    let mut child2_style = ComputedStyle::initial();
    child2_style.height = px(10);
    child2_style.margin.top = px(-4);
    let root = node(
        ComputedStyle::initial(),
        vec![node(child1_style, Vec::new()), node(child2_style, Vec::new())],
    );
    let tree = BoxTreeRoot::construct(&root);
    let fragments = tree.layout(viewport());
    assert_eq!(fragments.0.len(), 1);
    match &fragments.0[0] {
        Fragment::Box(root_frag) => {
            assert_eq!(root_frag.children.len(), 2);
            match (&root_frag.children[0], &root_frag.children[1]) {
                (Fragment::Box(first), Fragment::Box(second)) => {
                    assert_eq!(first.content_rect.start_corner.block, 0);
                    // 10px of first child, then max(10, 0) + min(0, -4) = 6.
                    assert_eq!(second.content_rect.start_corner.block, 16);
                },
                _ => panic!("expected two box fragments"),
            }
        },
        _ => panic!("expected a box fragment for the root element"),
    }
}

#[test]
fn an_empty_block_collapses_through() {
    let mut solid = ComputedStyle::initial();
    solid.height = px(10);
    let mut empty = ComputedStyle::initial();
    empty.margin.top = px(20);
    empty.margin.bottom = px(30);
    let root = node(
        ComputedStyle::initial(),
        vec![
            node(solid, Vec::new()),
            node(empty, Vec::new()),
            node(solid, Vec::new()),
        ],
    );
    let tree = BoxTreeRoot::construct(&root);
    let fragments = tree.layout(viewport());
    match &fragments.0[0] {
        Fragment::Box(root_frag) => {
            assert_eq!(root_frag.children.len(), 3);
            match (&root_frag.children[0], &root_frag.children[1], &root_frag.children[2]) {
                (Fragment::Box(a), Fragment::Box(b), Fragment::Box(c)) => {
                    assert_eq!(a.content_rect.start_corner.block, 0);
                    assert!(b.block_margins_collapsed_with_children.collapsed_through);
                    // The last sibling sits after max(20, 30) = 30 of
                    // collapsed margin, not after 50.
                    assert_eq!(c.content_rect.start_corner.block, 40);
                },
                _ => panic!("expected three box fragments"),
            }
        },
        _ => panic!("expected a box fragment for the root element"),
    }
}

#[test]
fn a_first_childs_margin_collapses_with_its_parent() {
    let mut child = ComputedStyle::initial();
    child.height = px(10);
    child.margin.top = px(5);
    let root = node(ComputedStyle::initial(), vec![node(child, Vec::new())]);
    let tree = BoxTreeRoot::construct(&root);
    let fragments = tree.layout(viewport());
    match &fragments.0[0] {
        Fragment::Box(root_frag) => {
            // The child's start margin moved out through the root box: the
            // root box is pushed down and the child sits at its content-box
            // origin.
            assert_eq!(root_frag.content_rect.start_corner.block, 5);
            match &root_frag.children[0] {
                Fragment::Box(child_frag) => {
                    assert_eq!(child_frag.content_rect.start_corner.block, 0);
                },
                _ => panic!("expected a box fragment"),
            }
        },
        _ => panic!("expected a box fragment for the root element"),
    }
}

#[test]
fn absolutes_appear_once_each_in_discovery_order_after_the_flow() {
    let mut abs_style = ComputedStyle::initial();
    abs_style.position = Position::Absolute;
    let abs_child = |key: u64| StyledNode {
        style: Arc::new(abs_style),
        replaced: Some(ReplacedContent {
            intrinsic_size: physical::Vec2 { x: 40, y: 20 },
            image_key: key,
        }),
        children: Vec::new(),
    };
    let mut inflow = ComputedStyle::initial();
    inflow.height = px(10);
    let root = node(
        ComputedStyle::initial(),
        vec![
            abs_child(11),
            node(inflow, Vec::new()),
            abs_child(12),
            abs_child(13),
        ],
    );
    let tree = BoxTreeRoot::construct(&root);
    let fragments = tree.layout(viewport());
    // One in-flow root fragment, then the three absolutes, in discovery
    // order.
    assert_eq!(fragments.0.len(), 4);
    let image_key_of = |f: &Fragment| -> u64 {
        match f {
            Fragment::Box(bf) => match &bf.children[0] {
                Fragment::Image(imf) => imf.image_key,
                _ => panic!("expected an image fragment"),
            },
            _ => panic!("expected a box fragment"),
        }
    };
    assert_eq!(image_key_of(&fragments.0[1]), 11);
    assert_eq!(image_key_of(&fragments.0[2]), 12);
    assert_eq!(image_key_of(&fragments.0[3]), 13);
    // An absolutely positioned replaced box with automatic insets sits at
    // the containing block's origin with its intrinsic size.
    match &fragments.0[1] {
        Fragment::Box(bf) => {
            assert_eq!(bf.content_rect.start_corner.inline, 0);
            assert_eq!(bf.content_rect.start_corner.block, 0);
            assert_eq!(bf.content_rect.size.inline, 40);
            assert_eq!(bf.content_rect.size.block, 20);
        },
        _ => panic!("expected a box fragment"),
    }
}

#[test]
fn absolute_insets_position_the_margin_box() {
    let mut abs_style = ComputedStyle::initial();
    abs_style.position = Position::Absolute;
    abs_style.width = px(100);
    abs_style.height = px(50);
    abs_style.inset.top = px(30);
    abs_style.inset.left = px(20);
    let root = node(ComputedStyle::initial(), vec![node(abs_style, Vec::new())]);
    let tree = BoxTreeRoot::construct(&root);
    let fragments = tree.layout(viewport());
    assert_eq!(fragments.0.len(), 2);
    match &fragments.0[1] {
        Fragment::Box(bf) => {
            assert_eq!(bf.content_rect.start_corner.inline, 20);
            assert_eq!(bf.content_rect.start_corner.block, 30);
            assert_eq!(bf.content_rect.size.inline, 100);
            assert_eq!(bf.content_rect.size.block, 50);
        },
        _ => panic!("expected a box fragment"),
    }
}

#[test]
fn end_insets_position_from_the_far_edge() {
    let mut abs_style = ComputedStyle::initial();
    abs_style.position = Position::Absolute;
    abs_style.width = px(100);
    abs_style.height = px(50);
    abs_style.inset.bottom = px(10);
    abs_style.inset.right = px(20);
    let root = node(ComputedStyle::initial(), vec![node(abs_style, Vec::new())]);
    let tree = BoxTreeRoot::construct(&root);
    let fragments = tree.layout(viewport());
    match &fragments.0[1] {
        Fragment::Box(bf) => {
            assert_eq!(bf.content_rect.start_corner.inline, 800 - 20 - 100);
            assert_eq!(bf.content_rect.start_corner.block, 600 - 10 - 50);
        },
        _ => panic!("expected a box fragment"),
    }
}

#[test]
fn a_fixed_width_and_padding_resolve_against_the_containing_block() {
    let mut child = ComputedStyle::initial();
    child.width = LengthPercentageOrAuto::LengthPercentage(LengthPercentage {
        length: 0,
        percent: 50,
    });
    child.height = px(10);
    child.padding.left = LengthPercentage { length: 0, percent: 10 };
    let root = node(ComputedStyle::initial(), vec![node(child, Vec::new())]);
    let tree = BoxTreeRoot::construct(&root);
    let fragments = tree.layout(viewport());
    match &fragments.0[0] {
        Fragment::Box(root_frag) => match &root_frag.children[0] {
            Fragment::Box(bf) => {
                assert_eq!(bf.content_rect.size.inline, 400);
                assert_eq!(bf.padding.inline_start, 80);
                assert_eq!(bf.content_rect.start_corner.inline, 80);
            },
            _ => panic!("expected a box fragment"),
        },
        _ => panic!("expected a box fragment for the root element"),
    }
}

#[test]
fn replaced_content_in_flow_takes_its_intrinsic_size() {
    let mut style = ComputedStyle::initial();
    style.display = ComputedStyle::initial().display;
    let child = StyledNode {
        style: Arc::new(style),
        replaced: Some(ReplacedContent {
            intrinsic_size: physical::Vec2 { x: 64, y: 48 },
            image_key: 7,
        }),
        children: Vec::new(),
    };
    let root = node(ComputedStyle::initial(), vec![child]);
    let tree = BoxTreeRoot::construct(&root);
    let fragments = tree.layout(viewport());
    match &fragments.0[0] {
        Fragment::Box(root_frag) => match &root_frag.children[0] {
            Fragment::Box(bf) => {
                assert_eq!(bf.content_rect.size.inline, 64);
                assert_eq!(bf.content_rect.size.block, 48);
                match &bf.children[0] {
                    Fragment::Image(imf) => assert_eq!(imf.image_key, 7),
                    _ => panic!("expected an image fragment"),
                }
            },
            _ => panic!("expected a box fragment"),
        },
        _ => panic!("expected a box fragment for the root element"),
    }
}

#[test]
fn display_contents_splices_children_into_the_parent() {
    let mut contents_style = ComputedStyle::initial();
    contents_style.display = Display::Contents;
    let mut grandchild = ComputedStyle::initial();
    grandchild.height = px(10);
    let root = node(
        ComputedStyle::initial(),
        vec![node(contents_style, vec![node(grandchild, Vec::new()), node(grandchild, Vec::new())])],
    );
    let tree = BoxTreeRoot::construct(&root);
    let fragments = tree.layout(viewport());
    match &fragments.0[0] {
        Fragment::Box(root_frag) => {
            assert_eq!(root_frag.children.len(), 2);
        },
        _ => panic!("expected a box fragment for the root element"),
    }
}

#[test]
fn nested_absolutes_resolve_against_the_ancestors_padding_box() {
    let mut inner = ComputedStyle::initial();
    inner.position = Position::Absolute;
    inner.width = px(20);
    inner.height = px(10);
    inner.inset.top = px(5);
    inner.inset.left = px(5);
    let mut outer = ComputedStyle::initial();
    outer.position = Position::Absolute;
    outer.width = px(200);
    outer.height = px(100);
    outer.inset.top = px(50);
    outer.inset.left = px(50);
    outer.padding.top = LengthPercentage { length: 10, percent: 0 };
    outer.padding.left = LengthPercentage { length: 10, percent: 0 };
    outer.padding.bottom = LengthPercentage { length: 10, percent: 0 };
    outer.padding.right = LengthPercentage { length: 10, percent: 0 };
    let root = node(
        ComputedStyle::initial(),
        vec![node(outer, vec![node(inner, Vec::new())])],
    );
    let tree = BoxTreeRoot::construct(&root);
    let fragments = tree.layout(viewport());
    assert_eq!(fragments.0.len(), 2);
    match &fragments.0[1] {
        Fragment::Box(outer_frag) => {
            assert_eq!(outer_frag.content_rect.start_corner.inline, 60);
            assert_eq!(outer_frag.content_rect.start_corner.block, 60);
            assert_eq!(outer_frag.children.len(), 1);
            match &outer_frag.children[0] {
                Fragment::Box(inner_frag) => {
                    // 5px from the padding box edge: -5 relative to the
                    // outer content box, whose edge sits 10px further in.
                    assert_eq!(inner_frag.content_rect.start_corner.inline, -5);
                    assert_eq!(inner_frag.content_rect.start_corner.block, -5);
                    assert_eq!(inner_frag.content_rect.size.inline, 20);
                    assert_eq!(inner_frag.content_rect.size.block, 10);
                },
                _ => panic!("expected a box fragment"),
            }
        },
        _ => panic!("expected a box fragment"),
    }
}

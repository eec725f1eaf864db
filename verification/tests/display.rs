//! The painting boundary: paint order, the contentful flag, and the
//! unsupported-configuration error.

use std::sync::Arc;

use layout_2020::display_list::{DisplayItem, DisplayListBuilder};
use layout_2020::dom_traversal::StyledNode;
use layout_2020::flow::root::{BoxTreeRoot, FragmentTreeRoot};
use layout_2020::fragments::{Fragment, TextFragment};
use layout_2020::geom::flow_relative;
use layout_2020::geom::physical;
use layout_2020::length::{LengthPercentage, LengthPercentageOrAuto};
use layout_2020::replaced::ReplacedContent;
use layout_2020::style_ext::{ComputedStyle, Display, WritingMode};

fn viewport() -> physical::Vec2<i64> {
    physical::Vec2 { x: 800, y: 600 }
}

fn px(v: i64) -> LengthPercentageOrAuto {
    LengthPercentageOrAuto::LengthPercentage(LengthPercentage { length: v, percent: 0 })
}

#[test]
fn an_empty_tree_is_not_contentful() {
    let mut style = ComputedStyle::initial();
    style.display = Display::NoneValue;
    let tree = BoxTreeRoot::construct(&StyledNode::leaf(style));
    let fragments = tree.layout(viewport());
    let mut builder = DisplayListBuilder::new();
    let is_contentful = fragments.build_display_list(&mut builder, viewport()).unwrap();
    assert!(!is_contentful.0);
    assert_eq!(builder.items.len(), 0);
}

#[test]
fn an_undecorated_box_tree_is_not_contentful() {
    let tree = BoxTreeRoot::construct(&StyledNode::leaf(ComputedStyle::initial()));
    let fragments = tree.layout(viewport());
    let mut builder = DisplayListBuilder::new();
    let is_contentful = fragments.build_display_list(&mut builder, viewport()).unwrap();
    assert!(!is_contentful.0);
    assert_eq!(builder.items.len(), 0);
}

#[test]
fn a_border_makes_a_box_contentful() {
    let mut style = ComputedStyle::initial();
    style.border_width.top = 2;
    let tree = BoxTreeRoot::construct(&StyledNode::leaf(style));
    let fragments = tree.layout(viewport());
    let mut builder = DisplayListBuilder::new();
    let is_contentful = fragments.build_display_list(&mut builder, viewport()).unwrap();
    assert!(is_contentful.0);
    assert!(matches!(builder.items[0], DisplayItem::Border { .. }));
}

#[test]
fn a_visible_background_makes_a_box_contentful() {
    let mut style = ComputedStyle::initial();
    style.background_is_visible = true;
    let tree = BoxTreeRoot::construct(&StyledNode::leaf(style));
    let fragments = tree.layout(viewport());
    let mut builder = DisplayListBuilder::new();
    let is_contentful = fragments.build_display_list(&mut builder, viewport()).unwrap();
    assert!(is_contentful.0);
    match &builder.items[0] {
        DisplayItem::Background { rect } => {
            assert_eq!(rect.top_left.x, 0);
            assert_eq!(rect.top_left.y, 0);
            assert_eq!(rect.size.x, 800);
            assert_eq!(rect.size.y, 600);
        },
        _ => panic!("expected a background item"),
    }
}

#[test]
fn an_image_makes_the_tree_contentful() {
    let root = StyledNode {
        style: Arc::new(ComputedStyle::initial()),
        replaced: Some(ReplacedContent {
            intrinsic_size: physical::Vec2 { x: 64, y: 48 },
            image_key: 9,
        }),
        children: Vec::new(),
    };
    let tree = BoxTreeRoot::construct(&root);
    let fragments = tree.layout(viewport());
    let mut builder = DisplayListBuilder::new();
    let is_contentful = fragments.build_display_list(&mut builder, viewport()).unwrap();
    assert!(is_contentful.0);
    match &builder.items[0] {
        DisplayItem::Image { rect, image_key } => {
            assert_eq!(*image_key, 9);
            assert_eq!(rect.size.x, 64);
            assert_eq!(rect.size.y, 48);
        },
        _ => panic!("expected an image item"),
    }
}

#[test]
fn a_text_fragment_makes_the_tree_contentful() {
    let text = Fragment::Text(TextFragment {
        parent_style: Arc::new(ComputedStyle::initial()),
        content_rect: flow_relative::Rect {
            start_corner: flow_relative::Vec2 { inline: 10, block: 20 },
            size: flow_relative::Vec2 { inline: 100, block: 16 },
        },
        ascent: 12,
        font_key: 3,
        glyphs: vec![101, 102, 103],
    });
    let fragments = FragmentTreeRoot(vec![text]);
    let mut builder = DisplayListBuilder::new();
    let is_contentful = fragments.build_display_list(&mut builder, viewport()).unwrap();
    assert!(is_contentful.0);
    match &builder.items[0] {
        DisplayItem::Text { rect, font_key, ascent, glyphs } => {
            assert_eq!(rect.top_left.x, 10);
            assert_eq!(rect.top_left.y, 20);
            assert_eq!(*font_key, 3);
            assert_eq!(*ascent, 12);
            assert_eq!(glyphs, &vec![101, 102, 103]);
        },
        _ => panic!("expected a text item"),
    }
}

#[test]
fn a_vertical_writing_mode_is_an_unsupported_configuration() {
    let mut style = ComputedStyle::initial();
    style.writing_mode = WritingMode::VerticalRl;
    style.height = px(10);
    let tree = BoxTreeRoot::construct(&StyledNode::leaf(style));
    let fragments = tree.layout(viewport());
    let mut builder = DisplayListBuilder::new();
    assert!(fragments.build_display_list(&mut builder, viewport()).is_err());
}

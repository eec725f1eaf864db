//! Geometry conversions and rectangle arithmetic.

use layout_2020::geom::flow_relative;
use layout_2020::geom::physical;
use layout_2020::length::{LengthOrAuto, LengthPercentage, MaxSize};
use layout_2020::style_ext::{Direction, WritingMode};
use layout_2020::ContainingBlock;

fn sample_rect() -> flow_relative::Rect<i64> {
    flow_relative::Rect {
        start_corner: flow_relative::Vec2 { inline: 3, block: 7 },
        size: flow_relative::Vec2 { inline: 100, block: 40 },
    }
}

fn sample_sides() -> flow_relative::Sides<i64> {
    flow_relative::Sides { inline_start: 1, inline_end: 2, block_start: 4, block_end: 8 }
}

#[test]
fn inflate_then_deflate_returns_the_original() {
    let r = sample_rect();
    let s = sample_sides();
    assert_eq!(r.inflate(&s).deflate(&s), r);
}

#[test]
fn deflate_then_inflate_returns_the_original() {
    let r = sample_rect();
    let s = sample_sides();
    assert_eq!(r.deflate(&s).inflate(&s), r);
}

#[test]
fn inflate_grows_every_edge() {
    let r = sample_rect().inflate(&sample_sides());
    assert_eq!(r.start_corner.inline, 2);
    assert_eq!(r.start_corner.block, 3);
    assert_eq!(r.size.inline, 103);
    assert_eq!(r.size.block, 52);
}

#[test]
fn rect_to_physical_round_trips_in_the_supported_mode() {
    let mode = (WritingMode::HorizontalTb, Direction::Ltr);
    let r = sample_rect();
    let p = r.to_physical(mode).unwrap();
    assert_eq!(p.top_left.x, 3);
    assert_eq!(p.top_left.y, 7);
    assert_eq!(p.size.x, 100);
    assert_eq!(p.size.y, 40);
    assert_eq!(p.to_flow_relative(mode).unwrap(), r);
}

#[test]
fn rect_to_physical_rejects_unsupported_modes() {
    assert!(sample_rect().to_physical((WritingMode::VerticalRl, Direction::Ltr)).is_err());
    assert!(sample_rect().to_physical((WritingMode::HorizontalTb, Direction::Rtl)).is_err());
}

#[test]
fn size_conversion_swaps_axes_in_vertical_modes() {
    let v = physical::Vec2 { x: 10, y: 20 };
    let h = v.size_to_flow_relative((WritingMode::HorizontalTb, Direction::Ltr));
    assert_eq!(h.inline, 10);
    assert_eq!(h.block, 20);
    let vert = v.size_to_flow_relative((WritingMode::VerticalRl, Direction::Ltr));
    assert_eq!(vert.inline, 20);
    assert_eq!(vert.block, 10);
}

#[test]
fn sides_follow_the_writing_modes_table() {
    let s = physical::Sides { top: 1, left: 2, bottom: 3, right: 4 };
    let h_ltr = s.to_flow_relative((WritingMode::HorizontalTb, Direction::Ltr));
    assert_eq!(h_ltr.inline_start, 2);
    assert_eq!(h_ltr.inline_end, 4);
    assert_eq!(h_ltr.block_start, 1);
    assert_eq!(h_ltr.block_end, 3);
    let h_rtl = s.to_flow_relative((WritingMode::HorizontalTb, Direction::Rtl));
    assert_eq!(h_rtl.inline_start, 4);
    assert_eq!(h_rtl.inline_end, 2);
    let vrl = s.to_flow_relative((WritingMode::VerticalRl, Direction::Ltr));
    assert_eq!(vrl.block_start, 4);
    assert_eq!(vrl.block_end, 2);
    assert_eq!(vrl.inline_start, 1);
    assert_eq!(vrl.inline_end, 3);
    let vlr_rtl = s.to_flow_relative((WritingMode::VerticalLr, Direction::Rtl));
    assert_eq!(vlr_rtl.block_start, 2);
    assert_eq!(vlr_rtl.block_end, 4);
    assert_eq!(vlr_rtl.inline_start, 3);
    assert_eq!(vlr_rtl.inline_end, 1);
}

#[test]
fn percentages_resolve_in_whole_percent_of_the_basis() {
    let lp = LengthPercentage { length: 5, percent: 50 };
    assert_eq!(lp.percentage_relative_to(200), 105);
    let plain = LengthPercentage::new_length(9);
    assert_eq!(plain.percentage_relative_to(12345), 9);
    let negative_basis = LengthPercentage { length: 7, percent: 50 };
    assert_eq!(negative_basis.percentage_relative_to(-100), 7);
}

#[test]
fn rect_translate_moves_the_corner_only() {
    let r = physical::Rect {
        top_left: physical::Vec2 { x: 5, y: 6 },
        size: physical::Vec2 { x: 10, y: 10 },
    };
    let t = r.translate(&physical::Vec2 { x: 100, y: -1 });
    assert_eq!(t.top_left.x, 105);
    assert_eq!(t.top_left.y, 5);
    assert_eq!(t.size, r.size);
}

#[test]
fn sides_map_applies_to_every_side() {
    let s = sample_sides();
    let doubled = s.map(&|v: i64| v * 2);
    assert_eq!(doubled.inline_start, 2);
    assert_eq!(doubled.inline_end, 4);
    assert_eq!(doubled.block_start, 8);
    assert_eq!(doubled.block_end, 16);
}

#[test]
fn sides_map_inline_and_block_axes_applies_per_axis() {
    let s = sample_sides();
    let mapped = s.map_inline_and_block_axes(&|v: i64| v + 100, &|v: i64| v - 1);
    assert_eq!(mapped.inline_start, 101);
    assert_eq!(mapped.inline_end, 102);
    assert_eq!(mapped.block_start, 3);
    assert_eq!(mapped.block_end, 7);
}

#[test]
fn sides_sums_add_the_two_sides_of_each_axis() {
    let s = sample_sides();
    assert_eq!(s.inline_sum(), 3);
    assert_eq!(s.block_sum(), 12);
}

#[test]
fn auto_resolves_lazily_through_the_fallback() {
    let sides = flow_relative::Sides {
        inline_start: LengthOrAuto::LengthValue(5),
        inline_end: LengthOrAuto::Auto,
        block_start: LengthOrAuto::Auto,
        block_end: LengthOrAuto::LengthValue(-2),
    };
    let resolved = sides.auto_is(&|| 42);
    assert_eq!(resolved.inline_start, 5);
    assert_eq!(resolved.inline_end, 42);
    assert_eq!(resolved.block_start, 42);
    assert_eq!(resolved.block_end, -2);
}

#[test]
fn max_size_constraints_resolve_only_against_definite_bases() {
    let constrained = flow_relative::Vec2 {
        inline: MaxSize::LengthPercentage(LengthPercentage { length: 0, percent: 50 }),
        block: MaxSize::LengthPercentage(LengthPercentage { length: 0, percent: 50 }),
    };
    let definite = ContainingBlock {
        inline_size: 200,
        block_size: LengthOrAuto::LengthValue(100),
        mode: (WritingMode::HorizontalTb, Direction::Ltr),
    };
    let r = constrained.percentages_relative_to(&definite);
    assert_eq!(r.inline, Some(100));
    assert_eq!(r.block, Some(50));

    let indefinite = ContainingBlock {
        inline_size: 200,
        block_size: LengthOrAuto::Auto,
        mode: (WritingMode::HorizontalTb, Direction::Ltr),
    };
    let r = constrained.percentages_relative_to(&indefinite);
    assert_eq!(r.inline, Some(100));
    assert_eq!(r.block, None);

    let unconstrained = flow_relative::Vec2 { inline: MaxSize::NoLimit, block: MaxSize::NoLimit };
    let r = unconstrained.percentages_relative_to(&definite);
    assert_eq!(r.inline, None);
    assert_eq!(r.block, None);
}

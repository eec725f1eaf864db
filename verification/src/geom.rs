//! Physical and flow-relative coordinate types and the conversions between
//! them, following the CSS writing-modes logical-to-physical mapping table.
//!
//! Rectangle conversion to physical coordinates is implemented only for the
//! horizontal-top-to-bottom, left-to-right configuration; every other
//! combination surfaces as an explicit [`UnsupportedConfiguration`] error
//! instead of a guessed mapping.

pub mod flow_relative;
pub mod physical;

use vstd::prelude::*;

use crate::length::{
    add_sat, spec_add_sat, spec_maybe_resolve_max_size, spec_resolve, spec_resolve_or_auto,
    spec_sub_sat, sub_sat, Length, LengthOrAuto, LengthPercentage, LengthPercentageOrAuto, MaxSize,
};
use crate::style_ext::{Direction, Mode, WritingMode};
use crate::ContainingBlock;

verus! {

/// A writing mode and direction for which a geometric conversion is not
/// implemented; callers recover by rejecting the configuration.
#[derive(Clone, Copy, Debug, PartialEq, Eq, Structural)]
pub struct UnsupportedConfiguration;

/// Whether rectangle conversion between coordinate systems is implemented
/// for this mode.
pub open spec fn spec_rect_conversion_supported(mode: Mode) -> bool {
    mode == (WritingMode::HorizontalTb, Direction::Ltr)
}

// https://drafts.csswg.org/css-writing-modes/#logical-to-physical
/// The size mapping: horizontal writing modes pair the inline axis with x,
/// vertical writing modes pair it with y.
pub open spec fn spec_size_to_flow_relative<T>(v: physical::Vec2<T>, mode: Mode) -> flow_relative::Vec2<T> {
    if mode.0 == WritingMode::HorizontalTb {
        flow_relative::Vec2 { inline: v.x, block: v.y }
    } else {
        flow_relative::Vec2 { inline: v.y, block: v.x }
    }
}

/// The inverse size mapping.
pub open spec fn spec_size_to_physical<T>(v: flow_relative::Vec2<T>, mode: Mode) -> physical::Vec2<T> {
    if mode.0 == WritingMode::HorizontalTb {
        physical::Vec2 { x: v.inline, y: v.block }
    } else {
        physical::Vec2 { x: v.block, y: v.inline }
    }
}

/// The side mapping: block-start/-end depend on the writing mode alone,
/// inline-start/-end additionally on the direction.
pub open spec fn spec_sides_to_flow_relative<T>(s: physical::Sides<T>, mode: Mode) -> flow_relative::Sides<T> {
    let (bs, be) = match mode.0 {
        WritingMode::HorizontalTb => (s.top, s.bottom),
        WritingMode::VerticalRl => (s.right, s.left),
        WritingMode::VerticalLr => (s.left, s.right),
    };
    let (is, ie) = match mode {
        (WritingMode::HorizontalTb, Direction::Ltr) => (s.left, s.right),
        (WritingMode::HorizontalTb, Direction::Rtl) => (s.right, s.left),
        (WritingMode::VerticalRl, Direction::Ltr) => (s.top, s.bottom),
        (WritingMode::VerticalLr, Direction::Ltr) => (s.top, s.bottom),
        (WritingMode::VerticalRl, Direction::Rtl) => (s.bottom, s.top),
        (WritingMode::VerticalLr, Direction::Rtl) => (s.bottom, s.top),
    };
    flow_relative::Sides { inline_start: is, inline_end: ie, block_start: bs, block_end: be }
}

impl<T: Copy> physical::Vec2<T> {
    /// Reinterprets this physical size as a flow-relative size in `mode`.
    pub fn size_to_flow_relative(&self, mode: Mode) -> (r: flow_relative::Vec2<T>)
        ensures
            r == spec_size_to_flow_relative(*self, mode),
    {
        let (i, b) = if let (WritingMode::HorizontalTb, _) = mode {
            (self.x, self.y)
        } else {
            (self.y, self.x)
        };
        flow_relative::Vec2 { inline: i, block: b }
    }
}

impl physical::Vec2<Length> {
    /// Componentwise saturating addition.
    pub fn add(&self, other: &physical::Vec2<Length>) -> (r: physical::Vec2<Length>)
        ensures
            r.x as int == spec_add_sat(self.x as int, other.x as int),
            r.y as int == spec_add_sat(self.y as int, other.y as int),
    {
        physical::Vec2 { x: add_sat(self.x, other.x), y: add_sat(self.y, other.y) }
    }
}

impl<T: Copy> flow_relative::Vec2<T> {
    /// Reinterprets this flow-relative size as a physical size in `mode`.
    pub fn size_to_physical(&self, mode: Mode) -> (r: physical::Vec2<T>)
        ensures
            r == spec_size_to_physical(*self, mode),
    {
        let (x, y) = if let (WritingMode::HorizontalTb, _) = mode {
            (self.inline, self.block)
        } else {
            (self.block, self.inline)
        };
        physical::Vec2 { x, y }
    }
}

impl flow_relative::Vec2<Length> {
    /// The zero offset.
    pub fn zero() -> (r: flow_relative::Vec2<Length>)
        ensures
            r == (flow_relative::Vec2 { inline: 0i64, block: 0i64 }),
    {
        flow_relative::Vec2 { inline: 0, block: 0 }
    }

    /// Componentwise saturating addition.
    pub fn add(&self, other: &flow_relative::Vec2<Length>) -> (r: flow_relative::Vec2<Length>)
        ensures
            r.inline as int == spec_add_sat(self.inline as int, other.inline as int),
            r.block as int == spec_add_sat(self.block as int, other.block as int),
    {
        flow_relative::Vec2 {
            inline: add_sat(self.inline, other.inline),
            block: add_sat(self.block, other.block),
        }
    }

    /// Componentwise saturating in-place addition.
    pub fn add_assign(&mut self, other: &flow_relative::Vec2<Length>)
        ensures
            final(self).inline as int == spec_add_sat(old(self).inline as int, other.inline as int),
            final(self).block as int == spec_add_sat(old(self).block as int, other.block as int),
    {
        self.inline = add_sat(self.inline, other.inline);
        self.block = add_sat(self.block, other.block);
    }
}

impl flow_relative::Vec2<LengthOrAuto> {
    /// Resolves each still-`auto` component with the supplied fallback
    /// computation.
    pub fn auto_is<F: Fn() -> Length>(&self, f: &F) -> (r: flow_relative::Vec2<Length>)
        requires
            f.requires(()),
        ensures
            match self.inline {
                LengthOrAuto::LengthValue(v) => r.inline == v,
                LengthOrAuto::Auto => call_ensures(*f, (), r.inline),
            },
            match self.block {
                LengthOrAuto::LengthValue(v) => r.block == v,
                LengthOrAuto::Auto => call_ensures(*f, (), r.block),
            },
    {
        flow_relative::Vec2 { inline: self.inline.auto_is(f), block: self.block.auto_is(f) }
    }
}

impl flow_relative::Vec2<LengthPercentageOrAuto> {
    /// Resolves percentages against a containing block: inline percentages
    /// against its inline size, block percentages only if its block size is
    /// definite.
    pub fn percentages_relative_to(&self, containing_block: &ContainingBlock) -> (r: flow_relative::Vec2<LengthOrAuto>)
        ensures
            r.inline == spec_resolve_or_auto(self.inline, containing_block.inline_size as int),
            r.block == crate::length::spec_maybe_resolve(
                self.block,
                match containing_block.block_size {
                    LengthOrAuto::LengthValue(v) => Some(v),
                    LengthOrAuto::Auto => None::<Length>,
                },
            ),
    {
        flow_relative::Vec2 {
            inline: self.inline.percentage_relative_to(containing_block.inline_size),
            block: self.block.maybe_percentage_relative_to(containing_block.block_size.non_auto()),
        }
    }
}

impl flow_relative::Vec2<MaxSize> {
    /// Resolves maximum-size constraints against a containing block: the
    /// inline bound against its inline size, the block bound only if its
    /// block size is definite.
    pub fn percentages_relative_to(&self, containing_block: &ContainingBlock) -> (r: flow_relative::Vec2<Option<Length>>)
        ensures
            r.inline == crate::length::spec_resolve_max_size(
                self.inline,
                containing_block.inline_size as int,
            ),
            r.block == spec_maybe_resolve_max_size(
                self.block,
                match containing_block.block_size {
                    LengthOrAuto::LengthValue(v) => Some(v),
                    LengthOrAuto::Auto => None::<Length>,
                },
            ),
    {
        let inline = match self.inline.to_option() {
            Some(lp) => Some(lp.percentage_relative_to(containing_block.inline_size)),
            None => None,
        };
        let block = match self.block.to_option() {
            Some(lp) => {
                if lp.percent == 0 {
                    Some(add_sat(lp.length, 0))
                } else {
                    match containing_block.block_size.non_auto() {
                        Some(b) => Some(lp.percentage_relative_to(b)),
                        None => None,
                    }
                }
            },
            None => None,
        };
        flow_relative::Vec2 { inline, block }
    }
}

impl<T: Copy> physical::Sides<T> {
    /// Maps the four physical sides onto flow-relative sides in `mode`, per
    /// the writing-modes logical-to-physical table.
    pub fn to_flow_relative(&self, mode: Mode) -> (r: flow_relative::Sides<T>)
        ensures
            r == spec_sides_to_flow_relative(*self, mode),
    {
        let (bs, be) = match mode.0 {
            WritingMode::HorizontalTb => (self.top, self.bottom),
            WritingMode::VerticalRl => (self.right, self.left),
            WritingMode::VerticalLr => (self.left, self.right),
        };
        let (is, ie) = match mode {
            (WritingMode::HorizontalTb, Direction::Ltr) => (self.left, self.right),
            (WritingMode::HorizontalTb, Direction::Rtl) => (self.right, self.left),
            (WritingMode::VerticalRl, Direction::Ltr) => (self.top, self.bottom),
            (WritingMode::VerticalLr, Direction::Ltr) => (self.top, self.bottom),
            (WritingMode::VerticalRl, Direction::Rtl) => (self.bottom, self.top),
            (WritingMode::VerticalLr, Direction::Rtl) => (self.bottom, self.top),
        };
        flow_relative::Sides { inline_start: is, inline_end: ie, block_start: bs, block_end: be }
    }
}

impl<T: Copy> flow_relative::Sides<T> {
    /// Applies `f` to every side.
    pub fn map<U, F: Fn(T) -> U>(&self, f: &F) -> (r: flow_relative::Sides<U>)
        requires
            f.requires((self.inline_start,)),
            f.requires((self.inline_end,)),
            f.requires((self.block_start,)),
            f.requires((self.block_end,)),
        ensures
            call_ensures(*f, (self.inline_start,), r.inline_start),
            call_ensures(*f, (self.inline_end,), r.inline_end),
            call_ensures(*f, (self.block_start,), r.block_start),
            call_ensures(*f, (self.block_end,), r.block_end),
    {
        flow_relative::Sides {
            inline_start: f(self.inline_start),
            inline_end: f(self.inline_end),
            block_start: f(self.block_start),
            block_end: f(self.block_end),
        }
    }

    /// Applies `inline_f` to the two inline sides and `block_f` to the two
    /// block sides.
    pub fn map_inline_and_block_axes<U, F: Fn(T) -> U, G: Fn(T) -> U>(
        &self,
        inline_f: &F,
        block_f: &G,
    ) -> (r: flow_relative::Sides<U>)
        requires
            inline_f.requires((self.inline_start,)),
            inline_f.requires((self.inline_end,)),
            block_f.requires((self.block_start,)),
            block_f.requires((self.block_end,)),
        ensures
            call_ensures(*inline_f, (self.inline_start,), r.inline_start),
            call_ensures(*inline_f, (self.inline_end,), r.inline_end),
            call_ensures(*block_f, (self.block_start,), r.block_start),
            call_ensures(*block_f, (self.block_end,), r.block_end),
    {
        flow_relative::Sides {
            inline_start: inline_f(self.inline_start),
            inline_end: inline_f(self.inline_end),
            block_start: block_f(self.block_start),
            block_end: block_f(self.block_end),
        }
    }
}

/// What `Sides::inline_sum` computes.
pub open spec fn spec_inline_sum(s: flow_relative::Sides<Length>) -> int {
    spec_add_sat(s.inline_start as int, s.inline_end as int)
}

/// What `Sides::block_sum` computes.
pub open spec fn spec_block_sum(s: flow_relative::Sides<Length>) -> int {
    spec_add_sat(s.block_start as int, s.block_end as int)
}

impl flow_relative::Sides<Length> {
    /// The two inline sides added together, saturating.
    pub fn inline_sum(&self) -> (r: Length)
        ensures
            r as int == spec_inline_sum(*self),
    {
        add_sat(self.inline_start, self.inline_end)
    }

    /// The two block sides added together, saturating.
    pub fn block_sum(&self) -> (r: Length)
        ensures
            r as int == spec_block_sum(*self),
    {
        add_sat(self.block_start, self.block_end)
    }

    /// Componentwise saturating addition.
    pub fn add(&self, other: &flow_relative::Sides<Length>) -> (r: flow_relative::Sides<Length>)
        ensures
            r.inline_start as int == spec_add_sat(self.inline_start as int, other.inline_start as int),
            r.inline_end as int == spec_add_sat(self.inline_end as int, other.inline_end as int),
            r.block_start as int == spec_add_sat(self.block_start as int, other.block_start as int),
            r.block_end as int == spec_add_sat(self.block_end as int, other.block_end as int),
    {
        flow_relative::Sides {
            inline_start: add_sat(self.inline_start, other.inline_start),
            inline_end: add_sat(self.inline_end, other.inline_end),
            block_start: add_sat(self.block_start, other.block_start),
            block_end: add_sat(self.block_end, other.block_end),
        }
    }

    /// The zero sides.
    pub fn zero() -> (r: flow_relative::Sides<Length>)
        ensures
            r == (flow_relative::Sides {
                inline_start: 0i64,
                inline_end: 0i64,
                block_start: 0i64,
                block_end: 0i64,
            }),
    {
        flow_relative::Sides { inline_start: 0, inline_end: 0, block_start: 0, block_end: 0 }
    }
}

impl flow_relative::Sides<LengthPercentage> {
    /// Resolves every side's percentage against `basis`.
    pub fn percentages_relative_to(&self, basis: Length) -> (r: flow_relative::Sides<Length>)
        ensures
            r.inline_start as int == spec_resolve(self.inline_start, basis as int),
            r.inline_end as int == spec_resolve(self.inline_end, basis as int),
            r.block_start as int == spec_resolve(self.block_start, basis as int),
            r.block_end as int == spec_resolve(self.block_end, basis as int),
    {
        flow_relative::Sides {
            inline_start: self.inline_start.percentage_relative_to(basis),
            inline_end: self.inline_end.percentage_relative_to(basis),
            block_start: self.block_start.percentage_relative_to(basis),
            block_end: self.block_end.percentage_relative_to(basis),
        }
    }
}

impl flow_relative::Sides<LengthPercentageOrAuto> {
    /// Resolves every side's percentage against `basis`; `auto` stays `auto`.
    pub fn percentages_relative_to(&self, basis: Length) -> (r: flow_relative::Sides<LengthOrAuto>)
        ensures
            r.inline_start == spec_resolve_or_auto(self.inline_start, basis as int),
            r.inline_end == spec_resolve_or_auto(self.inline_end, basis as int),
            r.block_start == spec_resolve_or_auto(self.block_start, basis as int),
            r.block_end == spec_resolve_or_auto(self.block_end, basis as int),
    {
        flow_relative::Sides {
            inline_start: self.inline_start.percentage_relative_to(basis),
            inline_end: self.inline_end.percentage_relative_to(basis),
            block_start: self.block_start.percentage_relative_to(basis),
            block_end: self.block_end.percentage_relative_to(basis),
        }
    }
}

impl flow_relative::Sides<LengthOrAuto> {
    /// Resolves each still-`auto` side with the supplied fallback
    /// computation.
    pub fn auto_is<F: Fn() -> Length>(&self, f: &F) -> (r: flow_relative::Sides<Length>)
        requires
            f.requires(()),
        ensures
            match self.inline_start {
                LengthOrAuto::LengthValue(v) => r.inline_start == v,
                LengthOrAuto::Auto => call_ensures(*f, (), r.inline_start),
            },
            match self.inline_end {
                LengthOrAuto::LengthValue(v) => r.inline_end == v,
                LengthOrAuto::Auto => call_ensures(*f, (), r.inline_end),
            },
            match self.block_start {
                LengthOrAuto::LengthValue(v) => r.block_start == v,
                LengthOrAuto::Auto => call_ensures(*f, (), r.block_start),
            },
            match self.block_end {
                LengthOrAuto::LengthValue(v) => r.block_end == v,
                LengthOrAuto::Auto => call_ensures(*f, (), r.block_end),
            },
    {
        flow_relative::Sides {
            inline_start: self.inline_start.auto_is(f),
            inline_end: self.inline_end.auto_is(f),
            block_start: self.block_start.auto_is(f),
            block_end: self.block_end.auto_is(f),
        }
    }
}

/// What `Rect::inflate` computes: the rectangle grown by `sides` on all four
/// edges, saturating.
pub open spec fn spec_inflate(r: flow_relative::Rect<Length>, sides: flow_relative::Sides<Length>) -> flow_relative::Rect<Length> {
    flow_relative::Rect {
        start_corner: flow_relative::Vec2 {
            inline: spec_sub_sat(r.start_corner.inline as int, sides.inline_start as int) as i64,
            block: spec_sub_sat(r.start_corner.block as int, sides.block_start as int) as i64,
        },
        size: flow_relative::Vec2 {
            inline: spec_add_sat(r.size.inline as int, spec_inline_sum(sides)) as i64,
            block: spec_add_sat(r.size.block as int, spec_block_sum(sides)) as i64,
        },
    }
}

/// What `Rect::deflate` computes: the rectangle shrunk by `sides` on all
/// four edges, saturating.
pub open spec fn spec_deflate(r: flow_relative::Rect<Length>, sides: flow_relative::Sides<Length>) -> flow_relative::Rect<Length> {
    flow_relative::Rect {
        start_corner: flow_relative::Vec2 {
            inline: spec_add_sat(r.start_corner.inline as int, sides.inline_start as int) as i64,
            block: spec_add_sat(r.start_corner.block as int, sides.block_start as int) as i64,
        },
        size: flow_relative::Vec2 {
            inline: spec_sub_sat(r.size.inline as int, spec_inline_sum(sides)) as i64,
            block: spec_sub_sat(r.size.block as int, spec_block_sum(sides)) as i64,
        },
    }
}

/// What `Rect::to_physical` computes for the supported configuration.
pub open spec fn spec_rect_to_physical<T>(r: flow_relative::Rect<T>, mode: Mode) -> Result<physical::Rect<T>, UnsupportedConfiguration> {
    if spec_rect_conversion_supported(mode) {
        Ok(
            physical::Rect {
                top_left: physical::Vec2 { x: r.start_corner.inline, y: r.start_corner.block },
                size: spec_size_to_physical(r.size, mode),
            },
        )
    } else {
        Err(UnsupportedConfiguration)
    }
}

/// What `Rect::to_flow_relative` computes for the supported configuration.
pub open spec fn spec_rect_to_flow_relative<T>(r: physical::Rect<T>, mode: Mode) -> Result<flow_relative::Rect<T>, UnsupportedConfiguration> {
    if spec_rect_conversion_supported(mode) {
        Ok(
            flow_relative::Rect {
                start_corner: flow_relative::Vec2 { inline: r.top_left.x, block: r.top_left.y },
                size: spec_size_to_flow_relative(r.size, mode),
            },
        )
    } else {
        Err(UnsupportedConfiguration)
    }
}

impl flow_relative::Rect<Length> {
    /// The zero rectangle.
    pub fn zero() -> (r: flow_relative::Rect<Length>)
        ensures
            r == (flow_relative::Rect {
                start_corner: flow_relative::Vec2 { inline: 0i64, block: 0i64 },
                size: flow_relative::Vec2 { inline: 0i64, block: 0i64 },
            }),
    {
        flow_relative::Rect {
            start_corner: flow_relative::Vec2::zero(),
            size: flow_relative::Vec2::zero(),
        }
    }

    /// Grows the rectangle by `sides` on all four edges, as deriving the
    /// padding box and border box from a content box requires.
    pub fn inflate(&self, sides: &flow_relative::Sides<Length>) -> (r: flow_relative::Rect<Length>)
        ensures
            r == spec_inflate(*self, *sides),
    {
        flow_relative::Rect {
            start_corner: flow_relative::Vec2 {
                inline: sub_sat(self.start_corner.inline, sides.inline_start),
                block: sub_sat(self.start_corner.block, sides.block_start),
            },
            size: flow_relative::Vec2 {
                inline: add_sat(self.size.inline, sides.inline_sum()),
                block: add_sat(self.size.block, sides.block_sum()),
            },
        }
    }

    /// Shrinks the rectangle by `sides` on all four edges: the inverse of
    /// [`Self::inflate`] wherever no value saturates.
    pub fn deflate(&self, sides: &flow_relative::Sides<Length>) -> (r: flow_relative::Rect<Length>)
        ensures
            r == spec_deflate(*self, *sides),
    {
        flow_relative::Rect {
            start_corner: flow_relative::Vec2 {
                inline: add_sat(self.start_corner.inline, sides.inline_start),
                block: add_sat(self.start_corner.block, sides.block_start),
            },
            size: flow_relative::Vec2 {
                inline: sub_sat(self.size.inline, sides.inline_sum()),
                block: sub_sat(self.size.block, sides.block_sum()),
            },
        }
    }
}

impl<T: Copy> flow_relative::Rect<T> {
    /// Converts the rectangle to physical coordinates.  Only the
    /// horizontal-top-to-bottom, left-to-right configuration is implemented;
    /// any other mode is reported as unsupported rather than guessed.
    pub fn to_physical(&self, mode: Mode) -> (r: Result<physical::Rect<T>, UnsupportedConfiguration>)
        ensures
            r == spec_rect_to_physical(*self, mode),
    {
        if let (WritingMode::HorizontalTb, Direction::Ltr) = mode {
            Ok(
                physical::Rect {
                    top_left: physical::Vec2 { x: self.start_corner.inline, y: self.start_corner.block },
                    size: self.size.size_to_physical(mode),
                },
            )
        } else {
            Err(UnsupportedConfiguration)
        }
    }
}

impl<T: Copy> physical::Rect<T> {
    /// Converts the rectangle to flow-relative coordinates: the inverse of
    /// [`flow_relative::Rect::to_physical`], implemented for the same single
    /// configuration.
    pub fn to_flow_relative(&self, mode: Mode) -> (r: Result<flow_relative::Rect<T>, UnsupportedConfiguration>)
        ensures
            r == spec_rect_to_flow_relative(*self, mode),
    {
        if let (WritingMode::HorizontalTb, Direction::Ltr) = mode {
            Ok(
                flow_relative::Rect {
                    start_corner: flow_relative::Vec2 { inline: self.top_left.x, block: self.top_left.y },
                    size: self.size.size_to_flow_relative(mode),
                },
            )
        } else {
            Err(UnsupportedConfiguration)
        }
    }
}

/// What `Rect::translate` computes.
pub open spec fn spec_translate(r: physical::Rect<Length>, by: physical::Vec2<Length>) -> physical::Rect<Length> {
    physical::Rect {
        top_left: physical::Vec2 {
            x: spec_add_sat(r.top_left.x as int, by.x as int) as i64,
            y: spec_add_sat(r.top_left.y as int, by.y as int) as i64,
        },
        size: r.size,
    }
}

impl physical::Rect<Length> {
    /// Moves the rectangle by `by` without changing its size, saturating.
    pub fn translate(&self, by: &physical::Vec2<Length>) -> (r: physical::Rect<Length>)
        ensures
            r == spec_translate(*self, *by),
    {
        physical::Rect { top_left: self.top_left.add(by), size: self.size }
    }
}

/// Converting a size to physical coordinates and back returns the original,
/// in every writing mode and direction.
pub proof fn lemma_size_round_trip<T>(v: flow_relative::Vec2<T>, mode: Mode)
    ensures
        spec_size_to_flow_relative(spec_size_to_physical(v, mode), mode) == v,
{
}

/// Converting a flow-relative rectangle to physical coordinates and back
/// returns the original, in the horizontal-top-to-bottom, left-to-right
/// configuration (the one for which the conversion is implemented).
pub proof fn lemma_rect_physical_round_trip<T>(r: flow_relative::Rect<T>, mode: Mode)
    requires
        spec_rect_conversion_supported(mode),
    ensures
        spec_rect_to_physical(r, mode) matches Ok(p) && spec_rect_to_flow_relative(p, mode)
            == Ok::<flow_relative::Rect<T>, UnsupportedConfiguration>(r),
{
}

/// Inflating a deflated rectangle by the same sides returns the original
/// rectangle, wherever none of the intermediate values saturates.
pub proof fn lemma_inflate_deflate_round_trip(
    r: flow_relative::Rect<Length>,
    sides: flow_relative::Sides<Length>,
)
    requires
        i64::MIN <= r.start_corner.inline as int + sides.inline_start as int <= i64::MAX,
        i64::MIN <= r.start_corner.block as int + sides.block_start as int <= i64::MAX,
        i64::MIN <= sides.inline_start as int + sides.inline_end as int <= i64::MAX,
        i64::MIN <= sides.block_start as int + sides.block_end as int <= i64::MAX,
        i64::MIN <= r.size.inline as int - (sides.inline_start as int + sides.inline_end as int)
            <= i64::MAX,
        i64::MIN <= r.size.block as int - (sides.block_start as int + sides.block_end as int)
            <= i64::MAX,
    ensures
        spec_inflate(spec_deflate(r, sides), sides) == r,
{
}

} // verus!

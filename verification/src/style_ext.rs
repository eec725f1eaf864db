//! The slice of computed style that block layout reads: display, position and
//! float classification, writing mode and direction, and the used-value
//! inputs for sizes, margins, borders, padding and insets.

use vstd::prelude::*;

use crate::geom::physical;
use crate::length::{Length, LengthPercentage, LengthPercentageOrAuto};

verus! {

/// The block-flow direction family of a writing mode.
#[derive(Clone, Copy, Debug, PartialEq, Eq, Structural)]
pub enum WritingMode {
    HorizontalTb,
    VerticalRl,
    VerticalLr,
}

/// The inline base direction.
#[derive(Clone, Copy, Debug, PartialEq, Eq, Structural)]
pub enum Direction {
    Ltr,
    Rtl,
}

/// A writing mode paired with a direction: everything a logical-to-physical
/// mapping depends on.
pub type Mode = (WritingMode, Direction);

/// The computed `display` value, reduced to what block layout distinguishes.
#[derive(Clone, Copy, Debug, PartialEq, Eq, Structural)]
pub enum Display {
    /// The computed keyword `none`.
    NoneValue,
    Contents,
    GeneratingBox(DisplayGeneratingBox),
}

/// A display value that generates a box: an outer and an inner display type.
#[derive(Clone, Copy, Debug, PartialEq, Eq, Structural)]
pub enum DisplayGeneratingBox {
    OutsideInside { outside: DisplayOutside, inside: DisplayInside },
}

/// How a box participates in its parent's formatting context.
#[derive(Clone, Copy, Debug, PartialEq, Eq, Structural)]
pub enum DisplayOutside {
    Block,
    Inline,
}

/// Which formatting context a box establishes for its contents.
#[derive(Clone, Copy, Debug, PartialEq, Eq, Structural)]
pub enum DisplayInside {
    Flow,
    FlowRoot,
}

/// The computed `position` value.
#[derive(Clone, Copy, Debug, PartialEq, Eq, Structural)]
pub enum Position {
    Static,
    Relative,
    Absolute,
    Fixed,
}

impl Position {
    /// Whether a box with this position is taken out of flow and positioned
    /// against an ancestor's padding box.
    pub open spec fn spec_is_absolutely_positioned(&self) -> bool {
        matches!(*self, Position::Absolute | Position::Fixed)
    }

    #[verifier::when_used_as_spec(spec_is_absolutely_positioned)]
    pub fn is_absolutely_positioned(&self) -> (r: bool)
        ensures
            r == self.spec_is_absolutely_positioned(),
    {
        matches!(*self, Position::Absolute | Position::Fixed)
    }
}

/// The computed `float` value.
#[derive(Clone, Copy, Debug, PartialEq, Eq, Structural)]
pub enum Float {
    /// The computed keyword `none`.
    NoneValue,
    Left,
    Right,
}

impl Float {
    /// Whether a box with this float value is taken out of flow and floated.
    pub open spec fn spec_is_floating(&self) -> bool {
        !matches!(*self, Float::NoneValue)
    }

    #[verifier::when_used_as_spec(spec_is_floating)]
    pub fn is_floating(&self) -> (r: bool)
        ensures
            r == self.spec_is_floating(),
    {
        !matches!(*self, Float::NoneValue)
    }
}

/// The computed style of one content node, reduced to the properties this
/// layout core reads.  Side properties are physical, as style systems expose
/// them; layout converts them to flow-relative sides with the node's own
/// writing mode and direction.
#[derive(Clone, Copy, Debug, PartialEq, Eq, Structural)]
pub struct ComputedStyle {
    pub display: Display,
    pub position: Position,
    pub float: Float,
    pub writing_mode: WritingMode,
    pub direction: Direction,
    /// The computed `width` property (the inline size in horizontal modes).
    pub width: LengthPercentageOrAuto,
    /// The computed `height` property (the block size in horizontal modes).
    pub height: LengthPercentageOrAuto,
    pub padding: physical::Sides<LengthPercentage>,
    pub border_width: physical::Sides<Length>,
    pub margin: physical::Sides<LengthPercentageOrAuto>,
    /// The inset properties `top`, `left`, `bottom`, `right`.
    pub inset: physical::Sides<LengthPercentageOrAuto>,
    /// Whether the background would paint something visible.
    pub background_is_visible: bool,
}

impl ComputedStyle {
    /// The writing mode and direction the node's own geometry uses.
    pub open spec fn spec_mode(&self) -> Mode {
        (self.writing_mode, self.direction)
    }

    #[verifier::when_used_as_spec(spec_mode)]
    pub fn mode(&self) -> (r: Mode)
        ensures
            r == self.spec_mode(),
    {
        (self.writing_mode, self.direction)
    }

    /// The style every property of which is its initial value: an in-flow,
    /// non-floating block-generating node with automatic sizes and no
    /// margins, borders, padding or visible background.
    pub fn initial() -> (r: ComputedStyle)
        ensures
            r == ComputedStyle::spec_initial(),
    {
        ComputedStyle {
            display: Display::GeneratingBox(
                DisplayGeneratingBox::OutsideInside {
                    outside: DisplayOutside::Block,
                    inside: DisplayInside::Flow,
                },
            ),
            position: Position::Static,
            float: Float::NoneValue,
            writing_mode: WritingMode::HorizontalTb,
            direction: Direction::Ltr,
            width: LengthPercentageOrAuto::Auto,
            height: LengthPercentageOrAuto::Auto,
            padding: physical::Sides {
                top: LengthPercentage { length: 0, percent: 0 },
                left: LengthPercentage { length: 0, percent: 0 },
                bottom: LengthPercentage { length: 0, percent: 0 },
                right: LengthPercentage { length: 0, percent: 0 },
            },
            border_width: physical::Sides { top: 0, left: 0, bottom: 0, right: 0 },
            margin: physical::Sides {
                top: LengthPercentageOrAuto::LengthPercentage(LengthPercentage { length: 0, percent: 0 }),
                left: LengthPercentageOrAuto::LengthPercentage(LengthPercentage { length: 0, percent: 0 }),
                bottom: LengthPercentageOrAuto::LengthPercentage(LengthPercentage { length: 0, percent: 0 }),
                right: LengthPercentageOrAuto::LengthPercentage(LengthPercentage { length: 0, percent: 0 }),
            },
            inset: physical::Sides {
                top: LengthPercentageOrAuto::Auto,
                left: LengthPercentageOrAuto::Auto,
                bottom: LengthPercentageOrAuto::Auto,
                right: LengthPercentageOrAuto::Auto,
            },
            background_is_visible: false,
        }
    }

    /// The value `ComputedStyle::initial` returns.
    pub open spec fn spec_initial() -> ComputedStyle {
        ComputedStyle {
            display: Display::GeneratingBox(
                DisplayGeneratingBox::OutsideInside {
                    outside: DisplayOutside::Block,
                    inside: DisplayInside::Flow,
                },
            ),
            position: Position::Static,
            float: Float::NoneValue,
            writing_mode: WritingMode::HorizontalTb,
            direction: Direction::Ltr,
            width: LengthPercentageOrAuto::Auto,
            height: LengthPercentageOrAuto::Auto,
            padding: physical::Sides {
                top: LengthPercentage { length: 0, percent: 0 },
                left: LengthPercentage { length: 0, percent: 0 },
                bottom: LengthPercentage { length: 0, percent: 0 },
                right: LengthPercentage { length: 0, percent: 0 },
            },
            border_width: physical::Sides { top: 0, left: 0, bottom: 0, right: 0 },
            margin: physical::Sides {
                top: LengthPercentageOrAuto::LengthPercentage(LengthPercentage { length: 0, percent: 0 }),
                left: LengthPercentageOrAuto::LengthPercentage(LengthPercentage { length: 0, percent: 0 }),
                bottom: LengthPercentageOrAuto::LengthPercentage(LengthPercentage { length: 0, percent: 0 }),
                right: LengthPercentageOrAuto::LengthPercentage(LengthPercentage { length: 0, percent: 0 }),
            },
            inset: physical::Sides {
                top: LengthPercentageOrAuto::Auto,
                left: LengthPercentageOrAuto::Auto,
                bottom: LengthPercentageOrAuto::Auto,
                right: LengthPercentageOrAuto::Auto,
            },
            background_is_visible: false,
        }
    }
}

} // verus!

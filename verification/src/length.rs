//! Length values as styles provide them: plain lengths, length-and-percentage
//! pairs, and the explicit `Auto` sentinel, together with the saturating
//! arithmetic the layout algorithms use on them.
//!
//! Lengths are whole layout units (CSS pixels in this engine).  All layout
//! arithmetic saturates at the representable range instead of wrapping, so a
//! pathological tree cannot make positions wrap around.

use vstd::prelude::*;

verus! {

/// A resolved length in layout units.
pub type Length = i64;

/// Clamps a mathematical integer into the range a `Length` can hold.
pub open spec fn sat(v: int) -> int {
    if v > i64::MAX as int {
        i64::MAX as int
    } else if v < i64::MIN as int {
        i64::MIN as int
    } else {
        v
    }
}

/// `a + b`, saturating at the representable range.
pub open spec fn spec_add_sat(a: int, b: int) -> int {
    sat(a + b)
}

/// `a - b`, saturating at the representable range.
pub open spec fn spec_sub_sat(a: int, b: int) -> int {
    sat(a - b)
}

/// A negative length clamped to zero, as used sizes and paddings require.
pub open spec fn spec_clamp0(v: int) -> int {
    if v < 0 {
        0
    } else {
        v
    }
}

/// Saturating addition on lengths: the exact sum wherever it fits.
pub fn add_sat(a: Length, b: Length) -> (r: Length)
    ensures
        r as int == spec_add_sat(a as int, b as int),
{
    match a.checked_add(b) {
        Some(v) => v,
        None => {
            if b > 0 {
                i64::MAX
            } else {
                i64::MIN
            }
        },
    }
}

/// Saturating subtraction on lengths: the exact difference wherever it fits.
pub fn sub_sat(a: Length, b: Length) -> (r: Length)
    ensures
        r as int == spec_sub_sat(a as int, b as int),
{
    match a.checked_sub(b) {
        Some(v) => v,
        None => {
            if b < 0 {
                i64::MAX
            } else {
                i64::MIN
            }
        },
    }
}

/// Clamps a negative length to zero.
pub fn clamp0(v: Length) -> (r: Length)
    ensures
        r as int == spec_clamp0(v as int),
{
    if v < 0 {
        0
    } else {
        v
    }
}

/// A percentage is a whole number of percent.  A `length` part and a
/// `percent` part resolve together against a basis length.
#[derive(Clone, Copy, Debug, PartialEq, Eq, Structural)]
pub struct LengthPercentage {
    pub length: Length,
    pub percent: i64,
}

/// What `LengthPercentage::percentage_relative_to` computes: the length part
/// plus `percent` hundredths of the basis.  A negative basis or percentage
/// contributes nothing, as percentage bases and percentages in styles are
/// non-negative.
pub open spec fn spec_resolve(lp: LengthPercentage, basis: int) -> int {
    spec_add_sat(lp.length as int, sat(spec_clamp0(basis) * spec_clamp0(lp.percent as int)) / 100)
}

impl LengthPercentage {
    /// A plain length with no percentage part.
    pub fn new_length(length: Length) -> (r: LengthPercentage)
        ensures
            r == (LengthPercentage { length, percent: 0 }),
    {
        LengthPercentage { length, percent: 0 }
    }

    /// Resolves the percentage part against `basis` and adds the length part.
    pub fn percentage_relative_to(&self, basis: Length) -> (r: Length)
        ensures
            r as int == spec_resolve(*self, basis as int),
    {
        let b = clamp0(basis);
        let p = clamp0(self.percent);
        let product: u64 = match (b as u64).checked_mul(p as u64) {
            Some(v) => {
                if v > i64::MAX as u64 {
                    i64::MAX as u64
                } else {
                    v
                }
            },
            None => i64::MAX as u64,
        };
        let share: i64 = (product / 100) as i64;
        assert(share as int == sat(spec_clamp0(basis as int) * spec_clamp0(self.percent as int))
            / 100) by {
            assert(b as int * p as int >= 0) by (nonlinear_arith)
                requires
                    b >= 0 && p >= 0,
            ;
        };
        add_sat(self.length, share)
    }
}

/// A length that may instead be the explicit `auto` sentinel, resolved only
/// when a caller supplies a fallback computation.
#[derive(Clone, Copy, Debug, PartialEq, Eq, Structural)]
pub enum LengthOrAuto {
    LengthValue(Length),
    Auto,
}

impl LengthOrAuto {
    /// Resolves `auto` by calling the supplied fallback computation; a
    /// concrete length is returned as it is.
    pub fn auto_is<F: Fn() -> Length>(&self, f: &F) -> (r: Length)
        requires
            f.requires(()),
        ensures
            match *self {
                LengthOrAuto::LengthValue(v) => r == v,
                LengthOrAuto::Auto => call_ensures(*f, (), r),
            },
    {
        match self {
            LengthOrAuto::LengthValue(v) => *v,
            LengthOrAuto::Auto => f(),
        }
    }

    /// The concrete length, if there is one.
    pub fn non_auto(&self) -> (r: Option<Length>)
        ensures
            match *self {
                LengthOrAuto::LengthValue(v) => r == Some(v),
                LengthOrAuto::Auto => r is None,
            },
    {
        match self {
            LengthOrAuto::LengthValue(v) => Some(*v),
            LengthOrAuto::Auto => None,
        }
    }
}

/// A length-and-percentage pair that may instead be `auto`.
#[derive(Clone, Copy, Debug, PartialEq, Eq, Structural)]
pub enum LengthPercentageOrAuto {
    LengthPercentage(LengthPercentage),
    Auto,
}

/// What `LengthPercentageOrAuto::percentage_relative_to` computes.
pub open spec fn spec_resolve_or_auto(lpa: LengthPercentageOrAuto, basis: int) -> LengthOrAuto {
    match lpa {
        LengthPercentageOrAuto::LengthPercentage(lp) => LengthOrAuto::LengthValue(
            spec_resolve(lp, basis) as i64,
        ),
        LengthPercentageOrAuto::Auto => LengthOrAuto::Auto,
    }
}

/// What `LengthPercentageOrAuto::maybe_percentage_relative_to` computes: a
/// percentage part only resolves when its basis is definite.
pub open spec fn spec_maybe_resolve(lpa: LengthPercentageOrAuto, basis: Option<Length>) -> LengthOrAuto {
    match lpa {
        LengthPercentageOrAuto::LengthPercentage(lp) => {
            if lp.percent == 0 {
                LengthOrAuto::LengthValue(spec_add_sat(lp.length as int, 0) as i64)
            } else {
                match basis {
                    Some(b) => LengthOrAuto::LengthValue(spec_resolve(lp, b as int) as i64),
                    None => LengthOrAuto::Auto,
                }
            }
        },
        LengthPercentageOrAuto::Auto => LengthOrAuto::Auto,
    }
}

impl LengthPercentageOrAuto {
    /// Resolves against a definite basis; `auto` stays `auto`.
    pub fn percentage_relative_to(&self, basis: Length) -> (r: LengthOrAuto)
        ensures
            r == spec_resolve_or_auto(*self, basis as int),
    {
        match self {
            LengthPercentageOrAuto::LengthPercentage(lp) => LengthOrAuto::LengthValue(
                lp.percentage_relative_to(basis),
            ),
            LengthPercentageOrAuto::Auto => LengthOrAuto::Auto,
        }
    }

    /// Resolves against a basis that may itself be indefinite: a value with a
    /// percentage part stays unresolved (`auto`) when the basis is indefinite.
    pub fn maybe_percentage_relative_to(&self, basis: Option<Length>) -> (r: LengthOrAuto)
        ensures
            r == spec_maybe_resolve(*self, basis),
    {
        match self {
            LengthPercentageOrAuto::LengthPercentage(lp) => {
                if lp.percent == 0 {
                    LengthOrAuto::LengthValue(add_sat(lp.length, 0))
                } else {
                    match basis {
                        Some(b) => LengthOrAuto::LengthValue(lp.percentage_relative_to(b)),
                        None => LengthOrAuto::Auto,
                    }
                }
            },
            LengthPercentageOrAuto::Auto => LengthOrAuto::Auto,
        }
    }
}



/// A maximum-size constraint: either no limit, or a length-and-percentage
/// bound.
#[derive(Clone, Copy, Debug, PartialEq, Eq, Structural)]
pub enum MaxSize {
    /// The keyword `none`: the size is unconstrained.
    NoLimit,
    LengthPercentage(LengthPercentage),
}

impl MaxSize {
    /// The constraint, if there is one.
    pub fn to_option(&self) -> (r: Option<LengthPercentage>)
        ensures
            match *self {
                MaxSize::LengthPercentage(lp) => r == Some(lp),
                MaxSize::NoLimit => r is None,
            },
    {
        match self {
            MaxSize::LengthPercentage(lp) => Some(*lp),
            MaxSize::NoLimit => None,
        }
    }
}

/// What resolving a `MaxSize` against a basis yields: `None` when the size
/// is unconstrained.
pub open spec fn spec_resolve_max_size(m: MaxSize, basis: int) -> Option<Length> {
    match m {
        MaxSize::LengthPercentage(lp) => Some(spec_resolve(lp, basis) as i64),
        MaxSize::NoLimit => None,
    }
}

/// What resolving a `MaxSize` against a possibly-indefinite basis yields: a
/// bound with a percentage part needs a definite basis to constrain
/// anything.
pub open spec fn spec_maybe_resolve_max_size(m: MaxSize, basis: Option<Length>) -> Option<Length> {
    match m {
        MaxSize::LengthPercentage(lp) => {
            if lp.percent == 0 {
                Some(spec_add_sat(lp.length as int, 0) as i64)
            } else {
                match basis {
                    Some(b) => Some(spec_resolve(lp, b as int) as i64),
                    None => None,
                }
            }
        },
        MaxSize::NoLimit => None,
    }
}

} // verus!

//! Declarative construction helpers: unified spatial constants and small
//! wrapper types used when describing entities.

use vstd::prelude::*;

use crate::anchor::Anchor;
use crate::fixed::fx_div;
use crate::layout::{Alignment, FlexDir};
use crate::scaling::SetEM;

verus! {

/// Unified constants for the various spatial enums.
///
/// `Left` may stand for `CenterLeft` as an anchor or for leading cross
/// alignment, and so on; each conversion accepts only the variants that
/// make sense for its target and reports the rest as misconfigurations.
#[derive(Clone, Copy, Debug, PartialEq, Eq, Structural)]
pub enum AoUISpacialConsts {
    TopLeft,
    TopCenter,
    TopRight,
    CenterLeft,
    Center,
    CenterRight,
    BottomLeft,
    BottomCenter,
    BottomRight,
    Top,
    Bottom,
    Left,
    Right,
    LeftToRight,
    RightToLeft,
    TopToBottom,
    BottomToTop,
}

impl AoUISpacialConsts {
    /// The anchor this constant names, if it names one.
    pub fn as_anchor(self) -> (r: Option<Anchor>)
        ensures
            r == match self {
                AoUISpacialConsts::TopLeft => Some(Anchor::TopLeft),
                AoUISpacialConsts::TopCenter => Some(Anchor::TopCenter),
                AoUISpacialConsts::TopRight => Some(Anchor::TopRight),
                AoUISpacialConsts::CenterLeft => Some(Anchor::CenterLeft),
                AoUISpacialConsts::Center => Some(Anchor::Center),
                AoUISpacialConsts::CenterRight => Some(Anchor::CenterRight),
                AoUISpacialConsts::BottomLeft => Some(Anchor::BottomLeft),
                AoUISpacialConsts::BottomCenter => Some(Anchor::BottomCenter),
                AoUISpacialConsts::BottomRight => Some(Anchor::BottomRight),
                AoUISpacialConsts::Top => Some(Anchor::TopCenter),
                AoUISpacialConsts::Bottom => Some(Anchor::BottomCenter),
                AoUISpacialConsts::Left => Some(Anchor::CenterLeft),
                AoUISpacialConsts::Right => Some(Anchor::CenterRight),
                _ => None::<Anchor>,
            },
    {
        match self {
            AoUISpacialConsts::TopLeft => Some(Anchor::TopLeft),
            AoUISpacialConsts::TopCenter => Some(Anchor::TopCenter),
            AoUISpacialConsts::TopRight => Some(Anchor::TopRight),
            AoUISpacialConsts::CenterLeft => Some(Anchor::CenterLeft),
            AoUISpacialConsts::Center => Some(Anchor::Center),
            AoUISpacialConsts::CenterRight => Some(Anchor::CenterRight),
            AoUISpacialConsts::BottomLeft => Some(Anchor::BottomLeft),
            AoUISpacialConsts::BottomCenter => Some(Anchor::BottomCenter),
            AoUISpacialConsts::BottomRight => Some(Anchor::BottomRight),
            AoUISpacialConsts::Top => Some(Anchor::TopCenter),
            AoUISpacialConsts::Bottom => Some(Anchor::BottomCenter),
            AoUISpacialConsts::Left => Some(Anchor::CenterLeft),
            AoUISpacialConsts::Right => Some(Anchor::CenterRight),
            _ => None,
        }
    }

    /// The cross-axis alignment this constant names, if it names one.
    pub fn as_alignment(self) -> (r: Option<Alignment>)
        ensures
            r == match self {
                AoUISpacialConsts::Center => Some(Alignment::Center),
                AoUISpacialConsts::Top => Some(Alignment::Top),
                AoUISpacialConsts::Bottom => Some(Alignment::Bottom),
                AoUISpacialConsts::Left => Some(Alignment::Left),
                AoUISpacialConsts::Right => Some(Alignment::Right),
                _ => None::<Alignment>,
            },
    {
        match self {
            AoUISpacialConsts::Center => Some(Alignment::Center),
            AoUISpacialConsts::Top => Some(Alignment::Top),
            AoUISpacialConsts::Bottom => Some(Alignment::Bottom),
            AoUISpacialConsts::Left => Some(Alignment::Left),
            AoUISpacialConsts::Right => Some(Alignment::Right),
            _ => None,
        }
    }

    /// The layout direction this constant names, if it names one.
    pub fn as_flex_dir(self) -> (r: Option<FlexDir>)
        ensures
            r == match self {
                AoUISpacialConsts::LeftToRight => Some(FlexDir::LeftToRight),
                AoUISpacialConsts::RightToLeft => Some(FlexDir::RightToLeft),
                AoUISpacialConsts::TopToBottom => Some(FlexDir::TopToBottom),
                AoUISpacialConsts::BottomToTop => Some(FlexDir::BottomToTop),
                _ => None::<FlexDir>,
            },
    {
        match self {
            AoUISpacialConsts::LeftToRight => Some(FlexDir::LeftToRight),
            AoUISpacialConsts::RightToLeft => Some(FlexDir::RightToLeft),
            AoUISpacialConsts::TopToBottom => Some(FlexDir::TopToBottom),
            AoUISpacialConsts::BottomToTop => Some(FlexDir::BottomToTop),
            _ => None,
        }
    }
}

/// Accepts one value standing for a pair.
#[derive(Clone, Copy, Debug, PartialEq, Eq, Structural)]
pub struct OneOrTwo<T>(pub T);

impl<T> OneOrTwo<T> {
    /// The wrapped pair value.
    pub fn into_inner(self) -> (r: T)
        ensures
            r == self.0,
    {
        self.0
    }
}

/// An option-like wrapper that keeps declarative defaults separate from
/// the std `Option` conversions.
#[derive(Clone, Copy, Debug, PartialEq, Eq, Structural)]
pub enum OptionX<T> {
    Filled(T),
    Vacant,
}

impl<T> OptionX<T> {
    /// Whether a value is present.
    pub fn is_filled(&self) -> (r: bool)
        ensures
            r == (*self is Filled),
    {
        matches!(self, OptionX::Filled(_))
    }

    /// The held value as a std option.
    pub fn take(self) -> (r: Option<T>)
        ensures
            r == match self {
                OptionX::Filled(v) => Some(v),
                OptionX::Vacant => None::<T>,
            },
    {
        match self {
            OptionX::Filled(v) => Some(v),
            OptionX::Vacant => None,
        }
    }
}

/// Set the font size in pixels.
pub fn px(v: i64) -> (r: SetEM)
    ensures
        r == SetEM::Pixels(v),
{
    SetEM::Pixels(v)
}

/// Set the font size in parent-relative `em`.
pub fn em(v: i64) -> (r: SetEM)
    ensures
        r == SetEM::Ems(v),
{
    SetEM::Ems(v)
}

/// Set the font size in root-relative `rem`.
pub fn rem(v: i64) -> (r: SetEM)
    ensures
        r == SetEM::Rems(v),
{
    SetEM::Rems(v)
}

/// Set the font size from a percentage, handed in as a whole number such
/// as 40 rather than a fraction.
pub fn percent(v: i64) -> (r: SetEM)
    ensures
        r == SetEM::Pixels(crate::fixed::fx_div_s(v as int, 1000000) as i64),
{
    SetEM::Pixels(fx_div(v, 1000000))
}

} // verus!

//! The scale of a slider.

use vstd::prelude::*;

use crate::size::{Axis, ElementId, ElementKey};
use crate::text::owned;

verus! {

/// The scale mode of the slider.
#[derive(Clone, Copy, Debug, PartialEq, Eq, Structural)]
pub enum SliderScale {
    /// Values change uniformly across the slider range. The default.
    Linear,
    /// The distance between values increases exponentially, for finer
    /// control at lower values (volume, frequency, zoom). Needs a positive
    /// minimum below the maximum.
    Logarithmic,
}

impl Default for SliderScale {
    /// The default scale is linear.
    fn default() -> (s: Self)
        ensures
            s == SliderScale::Linear,
    {
        SliderScale::Linear
    }
}

impl SliderScale {
    pub fn is_linear(&self) -> (r: bool)
        ensures
            r == (*self == SliderScale::Linear),
    {
        match self {
            SliderScale::Linear => true,
            SliderScale::Logarithmic => false,
        }
    }

    pub fn is_logarithmic(&self) -> (r: bool)
        ensures
            r == (*self == SliderScale::Logarithmic),
    {
        match self {
            SliderScale::Linear => false,
            SliderScale::Logarithmic => true,
        }
    }
}

/// A slider element bound to a slider state: its axis, whether it is
/// disabled, and how the bar is filled.
pub struct Slider {
    id: ElementId,
    axis: Axis,
    disabled: bool,
    show_fill: bool,
    reverse_fill: bool,
}

/// What a [`Slider`] holds.
pub struct SliderModel {
    pub id: ElementKey,
    pub axis: Axis,
    pub disabled: bool,
    pub show_fill: bool,
    pub reverse_fill: bool,
}

impl View for Slider {
    type V = SliderModel;

    closed spec fn view(&self) -> SliderModel {
        SliderModel {
            id: self.id@,
            axis: self.axis,
            disabled: self.disabled,
            show_fill: self.show_fill,
            reverse_fill: self.reverse_fill,
        }
    }
}

/// How a slider's fill runs: from the minimum edge (or the start thumb of a
/// range) to the end thumb, or, reversed for a single value, from the thumb
/// to the maximum edge.
#[derive(Clone, Copy, Debug, PartialEq, Eq, Structural)]
pub enum FillDirection {
    FromMinimum,
    ToMaximum,
}

impl Slider {
    /// A horizontal, enabled slider, filled from the minimum, bound to the
    /// state whose entity id is `state_id`.
    pub fn new(state_id: u64) -> (r: Self)
        ensures
            r@ == (SliderModel {
                id: ElementKey::NamedInteger("slider"@, state_id as nat),
                axis: Axis::Horizontal,
                disabled: false,
                show_fill: true,
                reverse_fill: false,
            }),
    {
        Slider {
            id: ElementId::NamedInteger(owned("slider"), state_id),
            axis: Axis::Horizontal,
            disabled: false,
            show_fill: true,
            reverse_fill: false,
        }
    }

    /// As a horizontal slider.
    pub fn horizontal(self) -> (r: Self)
        ensures
            r@ == (SliderModel { axis: Axis::Horizontal, ..self@ }),
    {
        Slider { axis: Axis::Horizontal, ..self }
    }

    /// As a vertical slider.
    pub fn vertical(self) -> (r: Self)
        ensures
            r@ == (SliderModel { axis: Axis::Vertical, ..self@ }),
    {
        Slider { axis: Axis::Vertical, ..self }
    }

    /// Set the disabled state of the slider, default: false
    pub fn disabled(self, disabled: bool) -> (r: Self)
        ensures
            r@ == (SliderModel { disabled, ..self@ }),
    {
        Slider { disabled, ..self }
    }

    /// Set whether the filled bar is visible. Default: `true`.
    pub fn show_fill(self, show: bool) -> (r: Self)
        ensures
            r@ == (SliderModel { show_fill: show, ..self@ }),
    {
        Slider { show_fill: show, ..self }
    }

    /// Reverse the fill direction for single-value mode: fill from the
    /// thumb to the maximum instead of from the minimum to the thumb.
    pub fn reverse_fill(self, reverse: bool) -> (r: Self)
        ensures
            r@ == (SliderModel { reverse_fill: reverse, ..self@ }),
    {
        Slider { reverse_fill: reverse, ..self }
    }

    /// The axis.
    pub fn axis(&self) -> (r: Axis)
        ensures
            r == self@.axis,
    {
        self.axis
    }

    /// Which way the fill runs: reversed only for a single value.
    pub fn fill_direction(&self, is_range: bool) -> (r: FillDirection)
        ensures
            r == if self@.reverse_fill && !is_range {
                FillDirection::ToMaximum
            } else {
                FillDirection::FromMinimum
            },
    {
        if self.reverse_fill && !is_range {
            FillDirection::ToMaximum
        } else {
            FillDirection::FromMinimum
        }
    }

    /// Whether the slider takes keys and pointer input: only when enabled.
    pub fn is_interactive(&self) -> (r: bool)
        ensures
            r == !self@.disabled,
    {
        !self.disabled
    }

    /// Whether the focus ring shows: the slider holds focus and is enabled.
    pub fn shows_focus_ring(&self, focused: bool) -> (r: bool)
        ensures
            r == (focused && !self@.disabled),
    {
        focused && !self.disabled
    }

    /// Whether dragging the bar itself (not a thumb) moves the value: for an
    /// enabled single-value slider.
    pub fn bar_drags(&self, is_range: bool) -> (r: bool)
        ensures
            r == (!self@.disabled && !is_range),
    {
        !self.disabled && !is_range
    }
}

} // verus!

//! The logical state of the controller: one snapshot per tick.

use vstd::prelude::*;
use crate::codec::{encode, encode_spec};
use crate::device::JoystickReport;
use crate::latch::{EdgeLatch, Input};
use crate::layout::Layout;

verus! {

/// An analog axis of one of the two sticks.
#[derive(Clone, Copy, Debug, PartialEq, Eq, Structural)]
pub enum StickAxis {
    LeftX,
    LeftY,
    RightX,
    RightY,
}

/// One raw converter reading per stick axis, taken in one tick.
#[derive(Clone, Copy, Debug, PartialEq, Eq, Structural)]
pub struct AxisSamples {
    pub left_x: u16,
    pub left_y: u16,
    pub right_x: u16,
    pub right_y: u16,
}

/// What the converter gave for each stick axis in one tick; `None` where the
/// conversion failed.
#[derive(Clone, Copy, Debug, PartialEq, Eq)]
pub struct AxisReadings {
    pub left_x: Option<u16>,
    pub left_y: Option<u16>,
    pub right_x: Option<u16>,
    pub right_y: Option<u16>,
}

/// One stick: its thumb switch and the raw samples of its two axes.
#[derive(Clone, Copy, Debug, PartialEq, Eq, Structural)]
pub struct JoyState {
    pub button: bool,
    pub x: u16,
    pub y: u16,
}

/// The whole controller: two sticks and six more buttons.
#[derive(Clone, Copy, Debug, PartialEq, Eq, Structural)]
pub struct Controller {
    pub joy_l: JoyState,
    pub joy_r: JoyState,
    pub under_l: bool,
    pub under_r: bool,
    pub front_l: bool,
    pub front_r: bool,
    pub start: bool,
    pub select: bool,
}

impl AxisSamples {
    /// The raw sample of one axis.
    pub open spec fn raw_spec(self, axis: StickAxis) -> u16 {
        match axis {
            StickAxis::LeftX => self.left_x,
            StickAxis::LeftY => self.left_y,
            StickAxis::RightX => self.right_x,
            StickAxis::RightY => self.right_y,
        }
    }
}

impl AxisReadings {
    /// The samples of a tick in which every conversion succeeded.
    pub open spec fn complete_spec(self) -> Option<AxisSamples> {
        if self.left_x is Some && self.left_y is Some && self.right_x is Some && self.right_y
            is Some {
            Some(
                AxisSamples {
                    left_x: self.left_x->0,
                    left_y: self.left_y->0,
                    right_x: self.right_x->0,
                    right_y: self.right_y->0,
                },
            )
        } else {
            None
        }
    }

    /// The samples of the tick, unless a conversion failed.
    pub fn complete(&self) -> (out: Option<AxisSamples>)
        ensures
            out == self.complete_spec(),
    {
        match (self.left_x, self.left_y, self.right_x, self.right_y) {
            (Some(left_x), Some(left_y), Some(right_x), Some(right_y)) => Some(
                AxisSamples { left_x, left_y, right_x, right_y },
            ),
            _ => None,
        }
    }
}

impl JoyState {
    /// A stick at rest before the first sample: released, both samples zero.
    pub open spec fn idle() -> JoyState {
        JoyState { button: false, x: 0, y: 0 }
    }
}

impl Default for JoyState {
    fn default() -> (out: JoyState)
        ensures
            out == JoyState::idle(),
    {
        JoyState { button: false, x: 0, y: 0 }
    }
}

impl Controller {
    /// The controller before the first tick: nothing pressed, every sample
    /// zero.
    pub open spec fn idle() -> Controller {
        Controller {
            joy_l: JoyState::idle(),
            joy_r: JoyState::idle(),
            under_l: false,
            under_r: false,
            front_l: false,
            front_r: false,
            start: false,
            select: false,
        }
    }

    /// Whether a digital input is pressed in this snapshot.
    pub open spec fn pressed_spec(self, input: Input) -> bool {
        match input {
            Input::ThumbL => self.joy_l.button,
            Input::ThumbR => self.joy_r.button,
            Input::UnderL => self.under_l,
            Input::UnderR => self.under_r,
            Input::FrontL => self.front_l,
            Input::FrontR => self.front_r,
            Input::Start => self.start,
            Input::Select => self.select,
        }
    }

    /// The raw sample of a stick axis in this snapshot.
    pub open spec fn raw_spec(self, axis: StickAxis) -> u16 {
        match axis {
            StickAxis::LeftX => self.joy_l.x,
            StickAxis::LeftY => self.joy_l.y,
            StickAxis::RightX => self.joy_r.x,
            StickAxis::RightY => self.joy_r.y,
        }
    }

    /// The snapshot that a latch and a set of samples give: every digital
    /// input as latched, every axis as sampled.
    pub open spec fn refresh_spec(latch: EdgeLatch, samples: AxisSamples) -> Controller {
        Controller {
            joy_l: JoyState {
                button: latch.value(Input::ThumbL),
                x: samples.left_x,
                y: samples.left_y,
            },
            joy_r: JoyState {
                button: latch.value(Input::ThumbR),
                x: samples.right_x,
                y: samples.right_y,
            },
            under_l: latch.value(Input::UnderL),
            under_r: latch.value(Input::UnderR),
            front_l: latch.value(Input::FrontL),
            front_r: latch.value(Input::FrontR),
            start: latch.value(Input::Start),
            select: latch.value(Input::Select),
        }
    }

    /// Whether a digital input is pressed in this snapshot.
    pub fn pressed(&self, input: Input) -> (out: bool)
        ensures
            out == self.pressed_spec(input),
    {
        match input {
            Input::ThumbL => self.joy_l.button,
            Input::ThumbR => self.joy_r.button,
            Input::UnderL => self.under_l,
            Input::UnderR => self.under_r,
            Input::FrontL => self.front_l,
            Input::FrontR => self.front_r,
            Input::Start => self.start,
            Input::Select => self.select,
        }
    }

    /// The raw sample of a stick axis in this snapshot.
    pub fn raw(&self, axis: StickAxis) -> (out: u16)
        ensures
            out == self.raw_spec(axis),
    {
        match axis {
            StickAxis::LeftX => self.joy_l.x,
            StickAxis::LeftY => self.joy_l.y,
            StickAxis::RightX => self.joy_r.x,
            StickAxis::RightY => self.joy_r.y,
        }
    }

    /// Writes the report of this snapshot under the stock board's layout.
    /// Every field of `report` is written: the two axes that the stock board
    /// does not have are set to zero.
    pub fn hid_report(&self, report: &mut JoystickReport)
        ensures
            *final(report) == encode_spec(*self, Layout::stock_spec()),
    {
        let layout = Layout::stock();
        *report = encode(self, &layout);
    }

    /// Builds the snapshot of one tick: reads every latched input once and
    /// takes every sample as given. Nothing of an earlier tick is kept.
    pub fn refresh(latch: &EdgeLatch, samples: &AxisSamples) -> (out: Controller)
        ensures
            out == Self::refresh_spec(*latch, *samples),
            forall|input: Input| out.pressed_spec(input) == latch.value(input),
            forall|axis: StickAxis| out.raw_spec(axis) == samples.raw_spec(axis),
    {
        Controller {
            joy_l: JoyState {
                button: latch.read(Input::ThumbL),
                x: samples.left_x,
                y: samples.left_y,
            },
            joy_r: JoyState {
                button: latch.read(Input::ThumbR),
                x: samples.right_x,
                y: samples.right_y,
            },
            under_l: latch.read(Input::UnderL),
            under_r: latch.read(Input::UnderR),
            front_l: latch.read(Input::FrontL),
            front_r: latch.read(Input::FrontR),
            start: latch.read(Input::Start),
            select: latch.read(Input::Select),
        }
    }
}

impl Default for Controller {
    fn default() -> (out: Controller)
        ensures
            out == Controller::idle(),
    {
        Controller {
            joy_l: JoyState::default(),
            joy_r: JoyState::default(),
            under_l: false,
            under_r: false,
            front_l: false,
            front_r: false,
            start: false,
            select: false,
        }
    }
}

} // verus!

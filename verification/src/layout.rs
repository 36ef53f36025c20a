//! Layout tables: which button bit each digital input sets and which report
//! axis each stick axis feeds, in which direction.
//!
//! A device variant is a table, not code: a new board adds a `Layout`.

use vstd::prelude::*;
use crate::controller::StickAxis;
use crate::device::ReportAxis;
use crate::latch::Input;
use crate::scaler::{Polarity, ADC_MAX_VALUE_3V3};

verus! {

/// Number of bits in the button mask.
pub const BUTTON_BITS: u8 = 16;

pub const BIT_SOUTH: u8 = 0;

pub const BIT_EAST: u8 = 1;

pub const BIT_C: u8 = 2;

pub const BIT_NORTH: u8 = 3;

pub const BIT_WEST: u8 = 4;

pub const BIT_Z: u8 = 5;

pub const BIT_TL: u8 = 6;

pub const BIT_TR: u8 = 7;

pub const BIT_TL2: u8 = 8;

pub const BIT_TR2: u8 = 9;

pub const BIT_SELECT: u8 = 10;

pub const BIT_START: u8 = 11;

pub const BIT_MODE: u8 = 12;

pub const BIT_THUMBL: u8 = 13;

pub const BIT_THUMBR: u8 = 14;

/// The button bit of every digital input; `None` for an input that the
/// device does not report.
#[derive(Clone, Copy, Debug, PartialEq, Eq)]
pub struct ButtonBits {
    pub thumb_l: Option<u8>,
    pub thumb_r: Option<u8>,
    pub under_l: Option<u8>,
    pub under_r: Option<u8>,
    pub front_l: Option<u8>,
    pub front_r: Option<u8>,
    pub start: Option<u8>,
    pub select: Option<u8>,
}

/// Where a stick axis goes: the report field it feeds and its direction.
#[derive(Clone, Copy, Debug, PartialEq, Eq)]
pub struct AxisBinding {
    pub field: ReportAxis,
    pub polarity: Polarity,
}

/// The binding of every stick axis; `None` for an axis that the device does
/// not report.
#[derive(Clone, Copy, Debug, PartialEq, Eq)]
pub struct AxisBindings {
    pub left_x: Option<AxisBinding>,
    pub left_y: Option<AxisBinding>,
    pub right_x: Option<AxisBinding>,
    pub right_y: Option<AxisBinding>,
}

/// The stick axis behind a report field, and the direction in which the field
/// follows it.
#[derive(Clone, Copy, Debug, PartialEq, Eq)]
pub struct AxisSource {
    pub axis: StickAxis,
    pub polarity: Polarity,
}

/// Why a table is not a layout.
#[derive(Clone, Copy, Debug, PartialEq, Eq, Structural)]
pub enum LayoutError {
    /// The full-scale value of the converter is zero.
    ZeroFullScale,
    /// An input is given a bit outside the sixteen-bit mask.
    ButtonBitOutOfRange,
    /// Two stick axes feed the same report field.
    AxisFieldShared,
}

/// A checked table: the full-scale value is positive, every button bit lies in
/// the mask, and no report field is fed by two axes.
#[derive(Clone, Copy, Debug, PartialEq, Eq)]
pub struct Layout {
    buttons: ButtonBits,
    axes: AxisBindings,
    max: u16,
}

/// Whether a bit assignment lies in the mask.
pub open spec fn bit_in_mask(bit: Option<u8>) -> bool {
    bit matches Some(b) ==> b < BUTTON_BITS
}

/// Whether two bindings feed the same report field.
pub open spec fn same_field(a: Option<AxisBinding>, b: Option<AxisBinding>) -> bool {
    a matches Some(x) && b matches Some(y) && x.field == y.field
}

/// Whether a binding feeds the given report field.
pub open spec fn feeds(binding: Option<AxisBinding>, field: ReportAxis) -> bool {
    binding matches Some(b) && b.field == field
}

fn check_bit(bit: Option<u8>) -> (ok: bool)
    ensures
        ok == bit_in_mask(bit),
{
    match bit {
        Some(b) => b < BUTTON_BITS,
        None => true,
    }
}

fn feeding(binding: Option<AxisBinding>, field: ReportAxis) -> (out: Option<Polarity>)
    ensures
        out is Some == feeds(binding, field),
        out matches Some(polarity) ==> polarity == binding->0.polarity,
{
    match binding {
        Some(b) => if b.field == field {
            Some(b.polarity)
        } else {
            None
        },
        None => None,
    }
}

fn check_same_field(a: Option<AxisBinding>, b: Option<AxisBinding>) -> (same: bool)
    ensures
        same == same_field(a, b),
{
    match a {
        Some(x) => match b {
            Some(y) => x.field == y.field,
            None => false,
        },
        None => false,
    }
}

impl ButtonBits {
    /// The bit that an input sets.
    pub open spec fn bit_of(self, input: Input) -> Option<u8> {
        match input {
            Input::ThumbL => self.thumb_l,
            Input::ThumbR => self.thumb_r,
            Input::UnderL => self.under_l,
            Input::UnderR => self.under_r,
            Input::FrontL => self.front_l,
            Input::FrontR => self.front_r,
            Input::Start => self.start,
            Input::Select => self.select,
        }
    }

    /// Every assigned bit lies in the mask.
    pub open spec fn in_mask(self) -> bool {
        forall|input: Input| bit_in_mask(#[trigger] self.bit_of(input))
    }

    /// The bits of the stock board.
    pub open spec fn stock_spec() -> ButtonBits {
        ButtonBits {
            thumb_l: Some(BIT_THUMBL),
            thumb_r: Some(BIT_THUMBR),
            under_l: Some(BIT_WEST),
            under_r: Some(BIT_NORTH),
            front_l: Some(BIT_EAST),
            front_r: Some(BIT_SOUTH),
            start: Some(BIT_START),
            select: Some(BIT_SELECT),
        }
    }

    /// The bit that an input sets.
    pub fn bit(&self, input: Input) -> (out: Option<u8>)
        ensures
            out == self.bit_of(input),
    {
        match input {
            Input::ThumbL => self.thumb_l,
            Input::ThumbR => self.thumb_r,
            Input::UnderL => self.under_l,
            Input::UnderR => self.under_r,
            Input::FrontL => self.front_l,
            Input::FrontR => self.front_r,
            Input::Start => self.start,
            Input::Select => self.select,
        }
    }

    /// Tests that every assigned bit lies in the mask.
    pub fn check_in_mask(&self) -> (ok: bool)
        ensures
            ok == self.in_mask(),
    {
        let ok = check_bit(self.thumb_l)
            && check_bit(self.thumb_r)
            && check_bit(self.under_l)
            && check_bit(self.under_r)
            && check_bit(self.front_l)
            && check_bit(self.front_r)
            && check_bit(self.start)
            && check_bit(self.select);
        proof {
            if ok {
                assert forall|input: Input| bit_in_mask(#[trigger] self.bit_of(input)) by {
                    match input {
                        Input::ThumbL => {},
                        Input::ThumbR => {},
                        Input::UnderL => {},
                        Input::UnderR => {},
                        Input::FrontL => {},
                        Input::FrontR => {},
                        Input::Start => {},
                        Input::Select => {},
                    }
                }
            } else if self.in_mask() {
                assert(bit_in_mask(self.bit_of(Input::ThumbL)));
                assert(bit_in_mask(self.bit_of(Input::ThumbR)));
                assert(bit_in_mask(self.bit_of(Input::UnderL)));
                assert(bit_in_mask(self.bit_of(Input::UnderR)));
                assert(bit_in_mask(self.bit_of(Input::FrontL)));
                assert(bit_in_mask(self.bit_of(Input::FrontR)));
                assert(bit_in_mask(self.bit_of(Input::Start)));
                assert(bit_in_mask(self.bit_of(Input::Select)));
            }
        }
        ok
    }
}

impl AxisBindings {
    /// The binding of a stick axis.
    pub open spec fn binding_of(self, axis: StickAxis) -> Option<AxisBinding> {
        match axis {
            StickAxis::LeftX => self.left_x,
            StickAxis::LeftY => self.left_y,
            StickAxis::RightX => self.right_x,
            StickAxis::RightY => self.right_y,
        }
    }

    /// No report field is fed by two stick axes.
    pub open spec fn distinct(self) -> bool {
        forall|a: StickAxis, b: StickAxis|
            a != b ==> !same_field(#[trigger] self.binding_of(a), #[trigger] self.binding_of(b))
    }

    /// The stick axis that feeds a report field, with its direction, if one
    /// does.
    pub open spec fn source_of(self, field: ReportAxis) -> Option<AxisSource> {
        if feeds(self.left_x, field) {
            Some(AxisSource { axis: StickAxis::LeftX, polarity: self.left_x->0.polarity })
        } else if feeds(self.left_y, field) {
            Some(AxisSource { axis: StickAxis::LeftY, polarity: self.left_y->0.polarity })
        } else if feeds(self.right_x, field) {
            Some(AxisSource { axis: StickAxis::RightX, polarity: self.right_x->0.polarity })
        } else if feeds(self.right_y, field) {
            Some(AxisSource { axis: StickAxis::RightY, polarity: self.right_y->0.polarity })
        } else {
            None
        }
    }

    /// The bindings of the stock board: both horizontal axes are mounted
    /// mirrored.
    pub open spec fn stock_spec() -> AxisBindings {
        AxisBindings {
            left_x: Some(AxisBinding { field: ReportAxis::Lx, polarity: Polarity::Inverted }),
            left_y: Some(AxisBinding { field: ReportAxis::Ly, polarity: Polarity::Direct }),
            right_x: Some(AxisBinding { field: ReportAxis::Rx, polarity: Polarity::Inverted }),
            right_y: Some(AxisBinding { field: ReportAxis::Ry, polarity: Polarity::Direct }),
        }
    }

    /// The binding of a stick axis.
    pub fn binding(&self, axis: StickAxis) -> (out: Option<AxisBinding>)
        ensures
            out == self.binding_of(axis),
    {
        match axis {
            StickAxis::LeftX => self.left_x,
            StickAxis::LeftY => self.left_y,
            StickAxis::RightX => self.right_x,
            StickAxis::RightY => self.right_y,
        }
    }

    /// Tests that no report field is fed by two stick axes.
    pub fn check_distinct(&self) -> (ok: bool)
        ensures
            ok == self.distinct(),
    {
        let clash = check_same_field(self.left_x, self.left_y)
            || check_same_field(self.left_x, self.right_x)
            || check_same_field(self.left_x, self.right_y)
            || check_same_field(self.left_y, self.right_x)
            || check_same_field(self.left_y, self.right_y)
            || check_same_field(self.right_x, self.right_y);
        proof {
            if clash {
                assert(self.left_x == self.binding_of(StickAxis::LeftX));
                assert(self.left_y == self.binding_of(StickAxis::LeftY));
                assert(self.right_x == self.binding_of(StickAxis::RightX));
                assert(self.right_y == self.binding_of(StickAxis::RightY));
            } else {
                assert forall|a: StickAxis, b: StickAxis| a != b implies !same_field(
                    #[trigger] self.binding_of(a),
                    #[trigger] self.binding_of(b),
                ) by {
                    match a {
                        StickAxis::LeftX => {},
                        StickAxis::LeftY => {},
                        StickAxis::RightX => {},
                        StickAxis::RightY => {},
                    }
                }
            }
        }
        !clash
    }

    /// The stick axis that feeds a report field, with its direction, if one
    /// does.
    pub fn source(&self, field: ReportAxis) -> (out: Option<AxisSource>)
        ensures
            out == self.source_of(field),
    {
        if let Some(polarity) = feeding(self.left_x, field) {
            Some(AxisSource { axis: StickAxis::LeftX, polarity })
        } else if let Some(polarity) = feeding(self.left_y, field) {
            Some(AxisSource { axis: StickAxis::LeftY, polarity })
        } else if let Some(polarity) = feeding(self.right_x, field) {
            Some(AxisSource { axis: StickAxis::RightX, polarity })
        } else if let Some(polarity) = feeding(self.right_y, field) {
            Some(AxisSource { axis: StickAxis::RightY, polarity })
        } else {
            None
        }
    }

    /// With distinct bindings, a report field's source is the one axis bound
    /// to it, and a field has no source exactly when no axis is bound to it.
    pub proof fn lemma_source_of(self, field: ReportAxis)
        requires
            self.distinct(),
        ensures
            forall|axis: StickAxis|
                feeds(#[trigger] self.binding_of(axis), field) <==> self.source_of(field) == Some(
                    AxisSource { axis, polarity: self.binding_of(axis)->0.polarity },
                ),
            self.source_of(field) is None <==> forall|axis: StickAxis|
                !feeds(#[trigger] self.binding_of(axis), field),
    {
        assert(self.left_x == self.binding_of(StickAxis::LeftX));
        assert(self.left_y == self.binding_of(StickAxis::LeftY));
        assert(self.right_x == self.binding_of(StickAxis::RightX));
        assert(self.right_y == self.binding_of(StickAxis::RightY));
        assert forall|axis: StickAxis|
            feeds(#[trigger] self.binding_of(axis), field) <==> self.source_of(field) == Some(
                AxisSource { axis, polarity: self.binding_of(axis)->0.polarity },
            ) by {
            match axis {
                StickAxis::LeftX => {},
                StickAxis::LeftY => {},
                StickAxis::RightX => {},
                StickAxis::RightY => {},
            }
        }
        if self.source_of(field) is None {
            assert forall|axis: StickAxis| !feeds(#[trigger] self.binding_of(axis), field) by {
                match axis {
                    StickAxis::LeftX => {},
                    StickAxis::LeftY => {},
                    StickAxis::RightX => {},
                    StickAxis::RightY => {},
                }
            }
        }
    }
}

/// The first fault of a table, in the order in which `Layout::new` tests:
/// full scale, button bits, axis fields. `None` for a sound table.
pub open spec fn layout_fault(buttons: ButtonBits, axes: AxisBindings, max: u16) -> Option<
    LayoutError,
> {
    if max == 0 {
        Some(LayoutError::ZeroFullScale)
    } else if !buttons.in_mask() {
        Some(LayoutError::ButtonBitOutOfRange)
    } else if !axes.distinct() {
        Some(LayoutError::AxisFieldShared)
    } else {
        None
    }
}

impl Layout {
    /// The button bits of the table.
    pub closed spec fn buttons(self) -> ButtonBits {
        self.buttons
    }

    /// The axis bindings of the table.
    pub closed spec fn axes(self) -> AxisBindings {
        self.axes
    }

    /// The full-scale value of the converter.
    pub closed spec fn full_scale(self) -> u16 {
        self.max
    }

    /// What every layout satisfies.
    pub open spec fn valid(self) -> bool {
        layout_fault(self.buttons(), self.axes(), self.full_scale()) is None
    }

    #[verifier::type_invariant]
    spec fn checked(self) -> bool {
        self.valid()
    }

    /// Checks a table and makes a layout of it, or names its first fault.
    pub fn new(buttons: ButtonBits, axes: AxisBindings, max: u16) -> (out: Result<
        Layout,
        LayoutError,
    >)
        ensures
            match layout_fault(buttons, axes, max) {
                Some(fault) => out == Err::<Layout, LayoutError>(fault),
                None => out matches Ok(layout) && layout.valid() && layout.buttons() == buttons
                    && layout.axes() == axes && layout.full_scale() == max,
            },
    {
        if max == 0 {
            Err(LayoutError::ZeroFullScale)
        } else if !buttons.check_in_mask() {
            Err(LayoutError::ButtonBitOutOfRange)
        } else if !axes.check_distinct() {
            Err(LayoutError::AxisFieldShared)
        } else {
            Ok(Layout { buttons, axes, max })
        }
    }

    /// The table of the stock board, on the twelve-bit converter.
    pub closed spec fn stock_spec() -> Layout {
        Layout {
            buttons: ButtonBits::stock_spec(),
            axes: AxisBindings::stock_spec(),
            max: ADC_MAX_VALUE_3V3,
        }
    }

    /// The table of the stock board, on the twelve-bit converter.
    pub fn stock() -> (out: Layout)
        ensures
            out == Self::stock_spec(),
            out.valid(),
            out.buttons() == ButtonBits::stock_spec(),
            out.axes() == AxisBindings::stock_spec(),
            out.full_scale() == ADC_MAX_VALUE_3V3,
    {
        let buttons = ButtonBits {
            thumb_l: Some(BIT_THUMBL),
            thumb_r: Some(BIT_THUMBR),
            under_l: Some(BIT_WEST),
            under_r: Some(BIT_NORTH),
            front_l: Some(BIT_EAST),
            front_r: Some(BIT_SOUTH),
            start: Some(BIT_START),
            select: Some(BIT_SELECT),
        };
        let axes = AxisBindings {
            left_x: Some(AxisBinding { field: ReportAxis::Lx, polarity: Polarity::Inverted }),
            left_y: Some(AxisBinding { field: ReportAxis::Ly, polarity: Polarity::Direct }),
            right_x: Some(AxisBinding { field: ReportAxis::Rx, polarity: Polarity::Inverted }),
            right_y: Some(AxisBinding { field: ReportAxis::Ry, polarity: Polarity::Direct }),
        };
        proof {
            lemma_stock_is_sound();
        }
        Layout { buttons, axes, max: ADC_MAX_VALUE_3V3 }
    }

    /// The button bits of the table.
    pub fn button_bits(&self) -> (out: ButtonBits)
        ensures
            out == self.buttons(),
    {
        self.buttons
    }

    /// The axis bindings of the table.
    pub fn axis_bindings(&self) -> (out: AxisBindings)
        ensures
            out == self.axes(),
    {
        self.axes
    }

    /// The full-scale value of the converter.
    pub fn max(&self) -> (out: u16)
        ensures
            out == self.full_scale(),
            out > 0,
    {
        proof {
            use_type_invariant(self);
        }
        self.max
    }
}

/// The stock table is sound.
pub proof fn lemma_stock_is_sound()
    ensures
        layout_fault(ButtonBits::stock_spec(), AxisBindings::stock_spec(), ADC_MAX_VALUE_3V3)
            is None,
        Layout::stock_spec().valid(),
        Layout::stock_spec().buttons() == ButtonBits::stock_spec(),
        Layout::stock_spec().axes() == AxisBindings::stock_spec(),
        Layout::stock_spec().full_scale() == ADC_MAX_VALUE_3V3,
{
    let buttons = ButtonBits::stock_spec();
    let axes = AxisBindings::stock_spec();
    assert forall|input: Input| bit_in_mask(#[trigger] buttons.bit_of(input)) by {
        match input {
            Input::ThumbL => {},
            Input::ThumbR => {},
            Input::UnderL => {},
            Input::UnderR => {},
            Input::FrontL => {},
            Input::FrontR => {},
            Input::Start => {},
            Input::Select => {},
        }
    }
    assert forall|a: StickAxis, b: StickAxis| a != b implies !same_field(
        #[trigger] axes.binding_of(a),
        #[trigger] axes.binding_of(b),
    ) by {
        match a {
            StickAxis::LeftX => {},
            StickAxis::LeftY => {},
            StickAxis::RightX => {},
            StickAxis::RightY => {},
        }
    }
}

} // verus!

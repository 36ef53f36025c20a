//! Report codec: from a controller snapshot and a layout to a report.
//!
//! The codec has no state and reads nothing but its two arguments, so equal
//! arguments give equal reports; the report loop's comparison with the last
//! report rests on that.

use vstd::prelude::*;
use crate::controller::{Controller, StickAxis};
use crate::device::{JoystickReport, ReportAxis};
use crate::latch::Input;
use crate::layout::{feeds, AxisBindings, ButtonBits, Layout, BUTTON_BITS};
use crate::scaler::{scale_axis, scale_axis_spec};

verus! {

/// What one input adds to the button mask: its bit while it is pressed.
pub open spec fn button_mask(pressed: bool, bit: Option<u8>) -> u16 {
    match bit {
        Some(b) => if pressed && b < BUTTON_BITS {
            1u16 << b
        } else {
            0
        },
        None => 0,
    }
}

/// The button mask of a snapshot: the bits of all pressed inputs.
pub open spec fn encoded_buttons(state: Controller, bits: ButtonBits) -> u16 {
    button_mask(state.joy_l.button, bits.thumb_l)
        | button_mask(state.joy_r.button, bits.thumb_r)
        | button_mask(state.under_l, bits.under_l)
        | button_mask(state.under_r, bits.under_r)
        | button_mask(state.front_l, bits.front_l)
        | button_mask(state.front_r, bits.front_r)
        | button_mask(state.start, bits.start)
        | button_mask(state.select, bits.select)
}

/// The value of one report axis: the scaled sample of the stick axis that
/// feeds it, or zero where none does.
pub open spec fn encoded_axis(state: Controller, axes: AxisBindings, max: u16, field: ReportAxis) -> i8 {
    match axes.source_of(field) {
        Some(source) => scale_axis_spec(
            state.raw_spec(source.axis) as int,
            max as int,
            source.polarity,
        ) as i8,
        None => 0,
    }
}

/// The report of a snapshot under a layout.
pub open spec fn encode_spec(state: Controller, layout: Layout) -> JoystickReport {
    let axes = layout.axes();
    let max = layout.full_scale();
    JoystickReport {
        ly: encoded_axis(state, axes, max, ReportAxis::Ly),
        lx: encoded_axis(state, axes, max, ReportAxis::Lx),
        lz: encoded_axis(state, axes, max, ReportAxis::Lz),
        ry: encoded_axis(state, axes, max, ReportAxis::Ry),
        rx: encoded_axis(state, axes, max, ReportAxis::Rx),
        rz: encoded_axis(state, axes, max, ReportAxis::Rz),
        buttons: encoded_buttons(state, layout.buttons()),
    }
}

fn mask_of(pressed: bool, bit: Option<u8>) -> (out: u16)
    ensures
        out == button_mask(pressed, bit),
{
    match bit {
        Some(b) => if pressed && b < BUTTON_BITS {
            1u16 << b
        } else {
            0
        },
        None => 0,
    }
}

fn encode_buttons(state: &Controller, bits: &ButtonBits) -> (out: u16)
    ensures
        out == encoded_buttons(*state, *bits),
{
    mask_of(state.joy_l.button, bits.thumb_l)
        | mask_of(state.joy_r.button, bits.thumb_r)
        | mask_of(state.under_l, bits.under_l)
        | mask_of(state.under_r, bits.under_r)
        | mask_of(state.front_l, bits.front_l)
        | mask_of(state.front_r, bits.front_r)
        | mask_of(state.start, bits.start)
        | mask_of(state.select, bits.select)
}

fn encode_axis(state: &Controller, axes: &AxisBindings, max: u16, field: ReportAxis) -> (out: i8)
    requires
        max > 0,
    ensures
        out == encoded_axis(*state, *axes, max, field),
{
    match axes.source(field) {
        Some(source) => scale_axis(state.raw(source.axis), max, source.polarity),
        None => 0,
    }
}

/// Encodes a snapshot under a layout. A report field that no stick axis feeds
/// is zero, and so is a button bit that no pressed input is assigned.
pub fn encode(state: &Controller, layout: &Layout) -> (out: JoystickReport)
    ensures
        out == encode_spec(*state, *layout),
{
    let axes = layout.axis_bindings();
    let bits = layout.button_bits();
    let max = layout.max();
    JoystickReport {
        ly: encode_axis(state, &axes, max, ReportAxis::Ly),
        lx: encode_axis(state, &axes, max, ReportAxis::Lx),
        lz: encode_axis(state, &axes, max, ReportAxis::Lz),
        ry: encode_axis(state, &axes, max, ReportAxis::Ry),
        rx: encode_axis(state, &axes, max, ReportAxis::Rx),
        rz: encode_axis(state, &axes, max, ReportAxis::Rz),
        buttons: encode_buttons(state, &bits),
    }
}

proof fn lemma_or_of_eight(
    m0: u16,
    m1: u16,
    m2: u16,
    m3: u16,
    m4: u16,
    m5: u16,
    m6: u16,
    m7: u16,
    probe: u16,
)
    by (bit_vector)
    ensures
        ((m0 | m1 | m2 | m3 | m4 | m5 | m6 | m7) & probe != 0) == (m0 & probe != 0
            || m1 & probe != 0
            || m2 & probe != 0
            || m3 & probe != 0
            || m4 & probe != 0
            || m5 & probe != 0
            || m6 & probe != 0
            || m7 & probe != 0),
{
}

proof fn lemma_bit_meets_bit(b: u8, k: u8)
    by (bit_vector)
    requires
        b < 16,
        k < 16,
    ensures
        ((1u16 << b) & (1u16 << k) != 0) == (b == k),
        0u16 & (1u16 << k) == 0,
{
}

proof fn lemma_or_with_zeros(m: u16)
    by (bit_vector)
    ensures
        m | 0u16 | 0u16 | 0u16 | 0u16 | 0u16 | 0u16 | 0u16 == m,
        0u16 | m | 0u16 | 0u16 | 0u16 | 0u16 | 0u16 | 0u16 == m,
        0u16 | 0u16 | m | 0u16 | 0u16 | 0u16 | 0u16 | 0u16 == m,
        0u16 | 0u16 | 0u16 | m | 0u16 | 0u16 | 0u16 | 0u16 == m,
        0u16 | 0u16 | 0u16 | 0u16 | m | 0u16 | 0u16 | 0u16 == m,
        0u16 | 0u16 | 0u16 | 0u16 | 0u16 | m | 0u16 | 0u16 == m,
        0u16 | 0u16 | 0u16 | 0u16 | 0u16 | 0u16 | m | 0u16 == m,
        0u16 | 0u16 | 0u16 | 0u16 | 0u16 | 0u16 | 0u16 | m == m,
{
}

proof fn lemma_mask_bit(pressed: bool, bit: Option<u8>, k: u8)
    requires
        k < BUTTON_BITS,
    ensures
        (button_mask(pressed, bit) & (1u16 << k) != 0) == (pressed && bit == Some(k)),
{
    match bit {
        Some(b) => {
            if b < BUTTON_BITS {
                lemma_bit_meets_bit(b, k);
            } else {
                lemma_bit_meets_bit(0, k);
            }
        },
        None => {
            lemma_bit_meets_bit(0, k);
        },
    }
}

/// The report is a function of the snapshot and the table alone: equal
/// snapshots under layouts with equal tables give equal reports and equal
/// bytes on the wire.
pub proof fn lemma_encode_deterministic(
    state_a: Controller,
    layout_a: Layout,
    state_b: Controller,
    layout_b: Layout,
)
    requires
        state_a == state_b,
        layout_a.buttons() == layout_b.buttons(),
        layout_a.axes() == layout_b.axes(),
        layout_a.full_scale() == layout_b.full_scale(),
    ensures
        encode_spec(state_a, layout_a) == encode_spec(state_b, layout_b),
        encode_spec(state_a, layout_a).pack_spec() == encode_spec(state_b, layout_b).pack_spec(),
{
}

/// The axis fields of an encoded report: a field that a stick axis feeds
/// holds that axis' sample, scaled in the bound direction, and a field that no
/// axis feeds is zero.
pub proof fn lemma_encode_axes(state: Controller, layout: Layout)
    requires
        layout.valid(),
    ensures
        forall|axis: StickAxis|
            (#[trigger] layout.axes().binding_of(axis)) matches Some(binding) ==> encode_spec(
                state,
                layout,
            ).axis_spec(binding.field) == scale_axis_spec(
                state.raw_spec(axis) as int,
                layout.full_scale() as int,
                binding.polarity,
            ),
        forall|field: ReportAxis|
            (forall|axis: StickAxis| !feeds(#[trigger] layout.axes().binding_of(axis), field))
                ==> #[trigger] encode_spec(state, layout).axis_spec(field) == 0,
{
    let axes = layout.axes();
    let max = layout.full_scale();
    let report = encode_spec(state, layout);
    assert forall|field: ReportAxis|
        #[trigger] report.axis_spec(field) == encoded_axis(state, axes, max, field) by {
        match field {
            ReportAxis::Ly => {},
            ReportAxis::Lx => {},
            ReportAxis::Lz => {},
            ReportAxis::Ry => {},
            ReportAxis::Rx => {},
            ReportAxis::Rz => {},
        }
    }
    assert forall|axis: StickAxis| (#[trigger] axes.binding_of(axis)) is Some implies ({
        let binding = axes.binding_of(axis)->0;
        report.axis_spec(binding.field) == scale_axis_spec(
            state.raw_spec(axis) as int,
            max as int,
            binding.polarity,
        )
    }) by {
        let binding = axes.binding_of(axis)->0;
        axes.lemma_source_of(binding.field);
        assert(feeds(axes.binding_of(axis), binding.field));
        assert(report.axis_spec(binding.field) == encoded_axis(state, axes, max, binding.field));
    }
    assert forall|field: ReportAxis|
        (forall|axis: StickAxis| !feeds(#[trigger] axes.binding_of(axis), field))
            implies #[trigger] report.axis_spec(field) == 0 by {
        axes.lemma_source_of(field);
    }
}

/// The button bits of an encoded report: a bit is set exactly when a pressed
/// input is assigned to it. A bit that the layout assigns to no input is
/// never set.
pub proof fn lemma_encode_buttons(state: Controller, layout: Layout, bit: u8)
    requires
        bit < BUTTON_BITS,
    ensures
        encode_spec(state, layout).button_spec(bit) <==> exists|input: Input|
            state.pressed_spec(input) && #[trigger] layout.buttons().bit_of(input) == Some(bit),
{
    let bits = layout.buttons();
    let probe = 1u16 << bit;
    lemma_or_of_eight(
        button_mask(state.joy_l.button, bits.thumb_l),
        button_mask(state.joy_r.button, bits.thumb_r),
        button_mask(state.under_l, bits.under_l),
        button_mask(state.under_r, bits.under_r),
        button_mask(state.front_l, bits.front_l),
        button_mask(state.front_r, bits.front_r),
        button_mask(state.start, bits.start),
        button_mask(state.select, bits.select),
        probe,
    );
    lemma_mask_bit(state.joy_l.button, bits.thumb_l, bit);
    lemma_mask_bit(state.joy_r.button, bits.thumb_r, bit);
    lemma_mask_bit(state.under_l, bits.under_l, bit);
    lemma_mask_bit(state.under_r, bits.under_r, bit);
    lemma_mask_bit(state.front_l, bits.front_l, bit);
    lemma_mask_bit(state.front_r, bits.front_r, bit);
    lemma_mask_bit(state.start, bits.start, bit);
    lemma_mask_bit(state.select, bits.select, bit);
    let set = encode_spec(state, layout).button_spec(bit);
    if set {
        let input = if state.joy_l.button && bits.thumb_l == Some(bit) {
            Input::ThumbL
        } else if state.joy_r.button && bits.thumb_r == Some(bit) {
            Input::ThumbR
        } else if state.under_l && bits.under_l == Some(bit) {
            Input::UnderL
        } else if state.under_r && bits.under_r == Some(bit) {
            Input::UnderR
        } else if state.front_l && bits.front_l == Some(bit) {
            Input::FrontL
        } else if state.front_r && bits.front_r == Some(bit) {
            Input::FrontR
        } else if state.start && bits.start == Some(bit) {
            Input::Start
        } else {
            Input::Select
        };
        assert(state.pressed_spec(input) && bits.bit_of(input) == Some(bit));
    } else {
        assert forall|input: Input|
            !(state.pressed_spec(input) && #[trigger] bits.bit_of(input) == Some(bit)) by {
            match input {
                Input::ThumbL => {},
                Input::ThumbR => {},
                Input::UnderL => {},
                Input::UnderR => {},
                Input::FrontL => {},
                Input::FrontR => {},
                Input::Start => {},
                Input::Select => {},
            }
        }
    }
}

/// The button mask does not depend on the sticks' positions: two snapshots
/// with the same inputs pressed have the same mask.
pub proof fn lemma_buttons_ignore_axes(a: Controller, b: Controller, layout: Layout)
    requires
        forall|input: Input| a.pressed_spec(input) == b.pressed_spec(input),
    ensures
        encode_spec(a, layout).buttons == encode_spec(b, layout).buttons,
{
    assert(a.pressed_spec(Input::ThumbL) == b.pressed_spec(Input::ThumbL));
    assert(a.pressed_spec(Input::ThumbR) == b.pressed_spec(Input::ThumbR));
    assert(a.pressed_spec(Input::UnderL) == b.pressed_spec(Input::UnderL));
    assert(a.pressed_spec(Input::UnderR) == b.pressed_spec(Input::UnderR));
    assert(a.pressed_spec(Input::FrontL) == b.pressed_spec(Input::FrontL));
    assert(a.pressed_spec(Input::FrontR) == b.pressed_spec(Input::FrontR));
    assert(a.pressed_spec(Input::Start) == b.pressed_spec(Input::Start));
    assert(a.pressed_spec(Input::Select) == b.pressed_spec(Input::Select));
}

/// With one input pressed and no other, the mask is that input's bit alone,
/// wherever the sticks stand.
pub proof fn lemma_single_button(state: Controller, layout: Layout, input: Input, bit: u8)
    requires
        layout.buttons().bit_of(input) == Some(bit),
        bit < BUTTON_BITS,
        forall|other: Input| state.pressed_spec(other) == (other == input),
    ensures
        encode_spec(state, layout).buttons == 1u16 << bit,
{
    let bits = layout.buttons();
    assert(state.pressed_spec(Input::ThumbL) == (Input::ThumbL == input));
    assert(state.pressed_spec(Input::ThumbR) == (Input::ThumbR == input));
    assert(state.pressed_spec(Input::UnderL) == (Input::UnderL == input));
    assert(state.pressed_spec(Input::UnderR) == (Input::UnderR == input));
    assert(state.pressed_spec(Input::FrontL) == (Input::FrontL == input));
    assert(state.pressed_spec(Input::FrontR) == (Input::FrontR == input));
    assert(state.pressed_spec(Input::Start) == (Input::Start == input));
    assert(state.pressed_spec(Input::Select) == (Input::Select == input));
    lemma_or_with_zeros(1u16 << bit);
}

} // verus!

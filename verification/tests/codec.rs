use picotroller::codec::encode;
use picotroller::controller::{Controller, JoyState};
use picotroller::device::{JoystickReport, ReportAxis};
use picotroller::layout::{AxisBinding, AxisBindings, ButtonBits, Layout};
use picotroller::scaler::{scale, Polarity};

fn sticks(left_x: u16, left_y: u16, right_x: u16, right_y: u16) -> Controller {
    Controller {
        joy_l: JoyState { button: false, x: left_x, y: left_y },
        joy_r: JoyState { button: false, x: right_x, y: right_y },
        ..Controller::default()
    }
}

fn trigger_layout() -> Layout {
    let bits = ButtonBits {
        thumb_l: None,
        thumb_r: None,
        under_l: Some(6),
        under_r: Some(7),
        front_l: None,
        front_r: None,
        start: Some(15),
        select: Some(0),
    };
    let axes = AxisBindings {
        left_x: Some(AxisBinding { field: ReportAxis::Lz, polarity: Polarity::Direct }),
        left_y: None,
        right_x: None,
        right_y: Some(AxisBinding { field: ReportAxis::Rz, polarity: Polarity::Inverted }),
    };
    Layout::new(bits, axes, 1023).unwrap()
}

#[test]
fn scenario_centered_sticks() {
    let state = sticks(4095 / 2, 4095 / 2, 4095 / 2, 4095 / 2);
    let report = encode(&state, &Layout::stock());
    assert_eq!(
        report,
        JoystickReport { ly: -1, lx: -1, lz: 0, ry: -1, rx: -1, rz: 0, buttons: 0 }
    );
    assert_eq!(report.pack(), [0xFF, 0xFF, 0x00, 0xFF, 0xFF, 0x00, 0x00, 0x00]);
}

#[test]
fn scenario_left_thumb_is_bit_thirteen() {
    for (x, y) in [(0u16, 0u16), (2047, 2047), (4095, 4095), (123, 3210)] {
        let mut state = sticks(x, y, y, x);
        state.joy_l.button = true;
        let report = encode(&state, &Layout::stock());
        assert_eq!(report.buttons, 0x2000);
        assert_eq!(report.pack()[6], 0x00);
        assert_eq!(report.pack()[7], 0x20);
    }
}

#[test]
fn encode_is_deterministic() {
    let mut state = sticks(11, 2222, 3333, 4044);
    state.under_l = true;
    state.select = true;
    let layout = Layout::stock();
    let first = encode(&state, &layout);
    for _ in 0..10 {
        let again = encode(&state, &layout);
        assert_eq!(again, first);
        assert_eq!(again.pack(), first.pack());
    }
    let copy = state;
    assert_eq!(encode(&copy, &Layout::stock()), first);
}

#[test]
fn unused_axes_are_zero() {
    for raw in [0u16, 1, 2047, 4095, 60000] {
        let report = encode(&sticks(raw, raw, raw, raw), &Layout::stock());
        assert_eq!(report.lz, 0);
        assert_eq!(report.rz, 0);
    }
    let report = encode(&sticks(700, 700, 700, 700), &trigger_layout());
    assert_eq!(report.ly, 0);
    assert_eq!(report.lx, 0);
    assert_eq!(report.ry, 0);
    assert_eq!(report.rx, 0);
}

#[test]
fn unassigned_bits_are_zero() {
    let all = Controller {
        joy_l: JoyState { button: true, x: 0, y: 0 },
        joy_r: JoyState { button: true, x: 0, y: 0 },
        under_l: true,
        under_r: true,
        front_l: true,
        front_r: true,
        start: true,
        select: true,
    };
    assert_eq!(encode(&all, &Layout::stock()).buttons, 0x6C1B);
    assert_eq!(encode(&all, &trigger_layout()).buttons, 0x80C1);
    let none = Layout::new(
        ButtonBits {
            thumb_l: None,
            thumb_r: None,
            under_l: None,
            under_r: None,
            front_l: None,
            front_r: None,
            start: None,
            select: None,
        },
        Layout::stock().axis_bindings(),
        4095,
    )
    .unwrap();
    assert_eq!(encode(&all, &none).buttons, 0);
}

#[test]
fn layout_table_drives_the_axes() {
    let state = sticks(100, 200, 300, 400);
    let report = encode(&state, &trigger_layout());
    assert_eq!(report.lz, scale(100, 1023));
    assert_eq!(report.rz, scale(1023 - 400, 1023));
    assert_eq!(report.lz, -104);
    assert_eq!(report.rz, 27);
}

#[test]
fn layout_table_drives_the_buttons() {
    let mut state = Controller::default();
    state.start = true;
    assert_eq!(encode(&state, &trigger_layout()).buttons, 0x8000);
    state.select = true;
    assert_eq!(encode(&state, &trigger_layout()).buttons, 0x8001);
    state.joy_l.button = true;
    state.front_l = true;
    assert_eq!(encode(&state, &trigger_layout()).buttons, 0x8001);
    state.under_l = true;
    state.under_r = true;
    assert_eq!(encode(&state, &trigger_layout()).buttons, 0x80C1);
}

#[test]
fn inputs_on_one_bit_are_ored() {
    let bits = ButtonBits {
        thumb_l: Some(5),
        thumb_r: Some(5),
        under_l: None,
        under_r: None,
        front_l: None,
        front_r: None,
        start: None,
        select: None,
    };
    let layout = Layout::new(bits, Layout::stock().axis_bindings(), 4095).unwrap();
    let mut state = Controller::default();
    assert_eq!(encode(&state, &layout).buttons, 0);
    state.joy_l.button = true;
    assert_eq!(encode(&state, &layout).buttons, 0x20);
    state.joy_r.button = true;
    assert_eq!(encode(&state, &layout).buttons, 0x20);
    state.joy_l.button = false;
    assert_eq!(encode(&state, &layout).buttons, 0x20);
}

#[test]
fn out_of_range_samples_stay_in_range() {
    let report = encode(&sticks(65535, 65535, 5000, 4096), &Layout::stock());
    assert_eq!(
        report,
        JoystickReport { ly: 127, lx: -128, lz: 0, ry: 127, rx: -128, rz: 0, buttons: 0 }
    );
}

#[test]
fn encode_agrees_with_hid_report_on_the_stock_board() {
    let mut state = sticks(5, 50, 500, 4000);
    state.front_r = true;
    state.start = true;
    let mut report = JoystickReport::default();
    state.hid_report(&mut report);
    assert_eq!(encode(&state, &Layout::stock()), report);
}

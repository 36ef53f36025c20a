use picotroller::device::{JoystickReport, ReportAxis, REPORT_SIZE};

#[test]
fn default_report_is_at_rest() {
    let report = JoystickReport::default();
    assert_eq!(
        report,
        JoystickReport { ly: 0, lx: 0, lz: 0, ry: 0, rx: 0, rz: 0, buttons: 0 }
    );
    assert_eq!(report.pack(), [0u8; 8]);
}

#[test]
fn pack_orders_axes_then_buttons_little_endian() {
    let report = JoystickReport { ly: 1, lx: 2, lz: 3, ry: 4, rx: 5, rz: 6, buttons: 0x2001 };
    assert_eq!(report.pack(), [1, 2, 3, 4, 5, 6, 0x01, 0x20]);
    assert_eq!(report.pack().len(), REPORT_SIZE);
}

#[test]
fn pack_writes_negative_axes_in_twos_complement() {
    let report = JoystickReport { ly: -1, lx: -128, lz: 127, ry: -2, rx: 0, rz: -127, buttons: 0xFFFF };
    assert_eq!(report.pack(), [0xFF, 0x80, 0x7F, 0xFE, 0x00, 0x81, 0xFF, 0xFF]);
}

#[test]
fn pack_agrees_with_native_byte_conversion() {
    for value in i8::MIN..=i8::MAX {
        let report = JoystickReport { ly: value, lx: 0, lz: 0, ry: 0, rx: 0, rz: value, buttons: 0 };
        let bytes = report.pack();
        assert_eq!(bytes[0], value.to_le_bytes()[0]);
        assert_eq!(bytes[5], value.to_le_bytes()[0]);
    }
    for buttons in [0u16, 1, 0x00FF, 0x0100, 0x2000, 0x8000, 0xABCD, 0xFFFF] {
        let report = JoystickReport { ly: 0, lx: 0, lz: 0, ry: 0, rx: 0, rz: 0, buttons };
        let bytes = report.pack();
        assert_eq!([bytes[6], bytes[7]], buttons.to_le_bytes());
    }
}

#[test]
fn different_reports_pack_differently() {
    let base = JoystickReport { ly: 1, lx: 2, lz: 3, ry: 4, rx: 5, rz: 6, buttons: 7 };
    let others = [
        JoystickReport { ly: -1, ..base },
        JoystickReport { lx: -2, ..base },
        JoystickReport { lz: 0, ..base },
        JoystickReport { ry: 5, ..base },
        JoystickReport { rx: 4, ..base },
        JoystickReport { rz: -6, ..base },
        JoystickReport { buttons: 0x0700, ..base },
    ];
    for other in others {
        assert_ne!(other, base);
        assert_ne!(other.pack(), base.pack());
    }
}

#[test]
fn axis_reads_each_field() {
    let report = JoystickReport { ly: 1, lx: 2, lz: 3, ry: 4, rx: 5, rz: 6, buttons: 0 };
    assert_eq!(report.axis(ReportAxis::Ly), 1);
    assert_eq!(report.axis(ReportAxis::Lx), 2);
    assert_eq!(report.axis(ReportAxis::Lz), 3);
    assert_eq!(report.axis(ReportAxis::Ry), 4);
    assert_eq!(report.axis(ReportAxis::Rx), 5);
    assert_eq!(report.axis(ReportAxis::Rz), 6);
}

#[test]
fn button_reads_each_bit() {
    let report = JoystickReport { ly: 0, lx: 0, lz: 0, ry: 0, rx: 0, rz: 0, buttons: 0x2401 };
    for bit in 0u8..16 {
        assert_eq!(report.button(bit), bit == 0 || bit == 10 || bit == 13);
    }
    assert!(!report.button(16));
    assert!(!report.button(255));
}

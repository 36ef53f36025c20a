//! The input report of the controller and its form on the wire.
//!
//! A report is eight bytes: six signed axis bytes in the order `ly`, `lx`,
//! `lz`, `ry`, `rx`, `rz`, then the sixteen button bits as a little-endian
//! word, bit 0 the least significant.

use vstd::prelude::*;

verus! {

/// Number of bytes of a report on the wire.
pub const REPORT_SIZE: usize = 8;

/// An axis field of the report.
#[derive(Clone, Copy, Debug, PartialEq, Eq, Structural)]
pub enum ReportAxis {
    Ly,
    Lx,
    Lz,
    Ry,
    Rx,
    Rz,
}

/// One input report: six signed axis values and a mask of sixteen buttons.
#[derive(Clone, Copy, Debug, PartialEq, Eq, Structural)]
pub struct JoystickReport {
    pub ly: i8,
    pub lx: i8,
    pub lz: i8,
    pub ry: i8,
    pub rx: i8,
    pub rz: i8,
    pub buttons: u16,
}

/// The byte that carries a signed axis value: its two's complement.
pub open spec fn axis_byte(value: i8) -> u8 {
    if value < 0 {
        (value + 256) as u8
    } else {
        value as u8
    }
}

/// The byte that carries a signed axis value.
fn axis_to_byte(value: i8) -> (out: u8)
    ensures
        out == axis_byte(value),
{
    if value < 0 {
        (value as i16 + 256) as u8
    } else {
        value as u8
    }
}

impl JoystickReport {
    /// The report at rest: every axis zero, no button set.
    pub open spec fn zero() -> JoystickReport {
        JoystickReport { ly: 0, lx: 0, lz: 0, ry: 0, rx: 0, rz: 0, buttons: 0 }
    }

    /// The value of one axis field.
    pub open spec fn axis_spec(self, field: ReportAxis) -> i8 {
        match field {
            ReportAxis::Ly => self.ly,
            ReportAxis::Lx => self.lx,
            ReportAxis::Lz => self.lz,
            ReportAxis::Ry => self.ry,
            ReportAxis::Rx => self.rx,
            ReportAxis::Rz => self.rz,
        }
    }

    /// Whether button bit `bit` is set; bit 0 is the least significant.
    pub open spec fn button_spec(self, bit: u8) -> bool {
        bit < 16 && self.buttons & (1u16 << bit) != 0
    }

    /// The eight bytes of the report on the wire.
    pub open spec fn pack_spec(self) -> Seq<u8> {
        seq![
            axis_byte(self.ly),
            axis_byte(self.lx),
            axis_byte(self.lz),
            axis_byte(self.ry),
            axis_byte(self.rx),
            axis_byte(self.rz),
            (self.buttons % 256) as u8,
            (self.buttons / 256) as u8,
        ]
    }

    /// The value of one axis field.
    pub fn axis(&self, field: ReportAxis) -> (out: i8)
        ensures
            out == self.axis_spec(field),
    {
        match field {
            ReportAxis::Ly => self.ly,
            ReportAxis::Lx => self.lx,
            ReportAxis::Lz => self.lz,
            ReportAxis::Ry => self.ry,
            ReportAxis::Rx => self.rx,
            ReportAxis::Rz => self.rz,
        }
    }

    /// Whether button bit `bit` is set; bit 0 is the least significant.
    /// The mask has sixteen bits: a higher bit is never set.
    pub fn button(&self, bit: u8) -> (out: bool)
        ensures
            out == self.button_spec(bit),
    {
        bit < 16 && self.buttons & (1u16 << bit) != 0
    }

    /// Lays the report out as it goes over the wire.
    pub fn pack(&self) -> (out: [u8; 8])
        ensures
            out@ == self.pack_spec(),
    {
        let low: u8 = (self.buttons % 256) as u8;
        let high: u8 = (self.buttons / 256) as u8;
        let out: [u8; 8] = [
            axis_to_byte(self.ly),
            axis_to_byte(self.lx),
            axis_to_byte(self.lz),
            axis_to_byte(self.ry),
            axis_to_byte(self.rx),
            axis_to_byte(self.rz),
            low,
            high,
        ];
        assert(out@ =~= self.pack_spec());
        out
    }

    /// Two reports that differ in any field differ on the wire: comparing
    /// reports is comparing their bytes.
    pub proof fn lemma_pack_injective(self, other: JoystickReport)
        requires
            self.pack_spec() == other.pack_spec(),
        ensures
            self == other,
    {
        let a = self.pack_spec();
        let b = other.pack_spec();
        assert(a[0] == b[0]);
        assert(a[1] == b[1]);
        assert(a[2] == b[2]);
        assert(a[3] == b[3]);
        assert(a[4] == b[4]);
        assert(a[5] == b[5]);
        assert(a[6] == b[6]);
        assert(a[7] == b[7]);
    }
}

impl Default for JoystickReport {
    fn default() -> (out: JoystickReport)
        ensures
            out == JoystickReport::zero(),
    {
        JoystickReport { ly: 0, lx: 0, lz: 0, ry: 0, rx: 0, rz: 0, buttons: 0 }
    }
}

} // verus!

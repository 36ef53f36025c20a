//! Status feedback: how the outcome of a transmission and the state of the
//! link show on the indicator.
//!
//! | trigger                         | colour |
//! |---------------------------------|--------|
//! | report sent                     | green  |
//! | transport would block           | cyan   |
//! | transmission failed             | red    |
//! | link poll reports no activity   | orange |

use vstd::prelude::*;

verus! {

/// The health of the device as the indicator shows it.
#[derive(Clone, Copy, Debug, PartialEq, Eq, Structural)]
pub enum StatusColor {
    /// A transmission failed.
    Red,
    /// Nominal: the last report was sent.
    Green,
    /// The link is idle.
    Orange,
    /// Backpressure: the transport could not take the last report.
    Cyan,
}

/// Why a transmission failed.
#[derive(Clone, Copy, Debug, PartialEq, Eq, Structural)]
pub enum TransmitError {
    /// The transport refused the report as a duplicate.
    Duplicate,
    /// The bus reported an error.
    Usb,
    /// The report could not be put into bytes.
    Serialization,
}

/// What the transport made of one report.
#[derive(Clone, Copy, Debug, PartialEq, Eq, Structural)]
pub enum TransmissionOutcome {
    /// The report is on its way.
    Sent,
    /// The transport cannot take a report now. This is backpressure, not an
    /// error.
    WouldBlock,
    /// The transport failed.
    Failed(TransmitError),
}

/// The colour that follows a transmission attempt.
pub open spec fn color_after_transmit(outcome: TransmissionOutcome) -> StatusColor {
    match outcome {
        TransmissionOutcome::Sent => StatusColor::Green,
        TransmissionOutcome::WouldBlock => StatusColor::Cyan,
        TransmissionOutcome::Failed(_) => StatusColor::Red,
    }
}

/// The colour that follows a poll of the link: orange where the poll saw no
/// activity, else the colour as it was.
pub open spec fn color_after_poll(current: StatusColor, activity: bool) -> StatusColor {
    if activity {
        current
    } else {
        StatusColor::Orange
    }
}

/// The colour that follows a transmission attempt.
pub fn after_transmit(outcome: TransmissionOutcome) -> (out: StatusColor)
    ensures
        out == color_after_transmit(outcome),
{
    match outcome {
        TransmissionOutcome::Sent => StatusColor::Green,
        TransmissionOutcome::WouldBlock => StatusColor::Cyan,
        TransmissionOutcome::Failed(_) => StatusColor::Red,
    }
}

/// The colour that follows a poll of the link.
pub fn after_poll(current: StatusColor, activity: bool) -> (out: StatusColor)
    ensures
        out == color_after_poll(current, activity),
{
    if activity {
        current
    } else {
        StatusColor::Orange
    }
}

} // verus!

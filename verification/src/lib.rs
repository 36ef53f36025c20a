//! Input acquisition and report generation for a two-stick USB game
//! controller.
//!
//! Data flows through the modules once per tick of the report loop:
//!
//! * `latch` keeps the state of the digital inputs, edge by edge, and
//!   `handoff` passes each input line to the interrupt handler that feeds it;
//! * `controller` joins the latched inputs and the analog samples into one
//!   snapshot;
//! * `scaler`, `layout` and `codec` turn a snapshot into a report, and
//!   `device` lays the report out on the wire;
//! * `control` decides when a report is sent and what the loop does next;
//! * `status` and `indicator` turn what happened into a colour and a pixel.
//!
//! `fmtbuf` is a small text buffer for diagnostics.

pub mod codec;
pub mod control;
pub mod controller;
pub mod device;
pub mod fmtbuf;
pub mod handoff;
pub mod indicator;
pub mod latch;
pub mod layout;
pub mod scaler;
pub mod status;

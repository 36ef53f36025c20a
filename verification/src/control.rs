//! The report loop as a step function.
//!
//! The loop itself lives with the hardware: it waits for the period timer,
//! samples, transmits, polls the link and drives the indicator. What it does
//! next is decided here. One tick is a chain of events and actions:
//!
//! 1. `PeriodPending`, `SampleFailed` or `Sampled` opens the tick. Only a
//!    sampled snapshot whose report differs from the last one asks for
//!    `Transmit`; everything else goes on to `PollLink`.
//! 2. `Transmitted` hands back the outcome of that one attempt and asks for
//!    `PollLink`. A report that was not sent is not tried again by itself: the
//!    next attempt comes with the next changed report.
//! 3. `LinkPolled` closes the tick: it asks for `SetIndicator` where the status
//!    colour differs from the one on show, else for `Wait`.
//!
//! A tick whose samples could not be taken is skipped: no report is made of
//! it, the last report stays, and the link is polled as in any other tick.
//!
//! A failed transmission shows on the indicator and is never fatal, however
//! many follow one another: the loop has no failure count and no way to stop.

use vstd::prelude::*;
use crate::codec::{encode, encode_spec};
use crate::controller::{AxisReadings, Controller};
use crate::device::JoystickReport;
use crate::latch::EdgeLatch;
use crate::layout::Layout;
use crate::status::{
    after_poll,
    after_transmit,
    color_after_poll,
    color_after_transmit,
    StatusColor,
    TransmissionOutcome,
};

verus! {

/// Recommended period of the report timer, in milliseconds.
pub const REPORT_PERIOD_MS: u32 = 10;

/// What the hardware side hands to the loop.
#[derive(Clone, Copy, Debug, PartialEq, Eq, Structural)]
pub enum Event {
    /// The period timer has not elapsed.
    PeriodPending,
    /// The period elapsed, but a conversion failed.
    SampleFailed,
    /// The period elapsed; this is the snapshot of the tick.
    Sampled(Controller),
    /// The transport answered the transmission that was asked for.
    Transmitted(TransmissionOutcome),
    /// The link was polled; `true` where it saw activity.
    LinkPolled(bool),
}

/// What the hardware side does next.
#[derive(Clone, Copy, Debug, PartialEq, Eq, Structural)]
pub enum Action {
    /// Transmit this report once and hand back `Event::Transmitted`.
    Transmit(JoystickReport),
    /// Poll the link and hand back `Event::LinkPolled`.
    PollLink,
    /// Show this colour on the indicator, then wait for the timer.
    SetIndicator(StatusColor),
    /// Nothing to show: wait for the timer.
    Wait,
}

/// The state of the loop between two steps.
pub struct LoopState {
    /// The table that reports are encoded with.
    pub layout: Layout,
    /// The report of the last sampled tick, sent or not.
    pub last_report: JoystickReport,
    /// The colour that the indicator shows.
    pub shown: StatusColor,
    /// The status colour, which the indicator may not show yet.
    pub status: StatusColor,
}

/// The report loop's memory.
#[derive(Clone, Copy, Debug, PartialEq, Eq)]
pub struct ControlLoop {
    layout: Layout,
    last_report: JoystickReport,
    shown: StatusColor,
    status: StatusColor,
}

impl LoopState {
    /// The state before the first tick: the report at rest counts as sent,
    /// and the indicator shows green.
    pub open spec fn initial(layout: Layout) -> LoopState {
        LoopState {
            layout,
            last_report: JoystickReport::zero(),
            shown: StatusColor::Green,
            status: StatusColor::Green,
        }
    }

    /// One step: the state after `event` and the action it calls for.
    pub open spec fn step(self, event: Event) -> (LoopState, Action) {
        match event {
            Event::PeriodPending => (self, Action::PollLink),
            Event::SampleFailed => (self, Action::PollLink),
            Event::Sampled(state) => {
                let report = encode_spec(state, self.layout);
                (
                    LoopState { last_report: report, ..self },
                    if report != self.last_report {
                        Action::Transmit(report)
                    } else {
                        Action::PollLink
                    },
                )
            },
            Event::Transmitted(outcome) => (
                LoopState { status: color_after_transmit(outcome), ..self },
                Action::PollLink,
            ),
            Event::LinkPolled(activity) => {
                let status = color_after_poll(self.status, activity);
                (
                    LoopState { status, shown: status, ..self },
                    if status != self.shown {
                        Action::SetIndicator(status)
                    } else {
                        Action::Wait
                    },
                )
            },
        }
    }

    /// The state after a run of events, oldest first.
    pub open spec fn run(self, events: Seq<Event>) -> LoopState
        decreases events.len(),
    {
        if events.len() == 0 {
            self
        } else {
            self.step(events.first()).0.run(events.drop_first())
        }
    }

    /// The number of transmissions that a run of events asks for.
    pub open spec fn transmissions(self, events: Seq<Event>) -> nat
        decreases events.len(),
    {
        if events.len() == 0 {
            0
        } else {
            let (next, action) = self.step(events.first());
            let here: nat = if action is Transmit {
                1
            } else {
                0
            };
            here + next.transmissions(events.drop_first())
        }
    }
}

/// The event that opens a tick whose period has elapsed: the snapshot of the
/// latch and the samples, or `SampleFailed` where a conversion failed.
pub open spec fn sampled_event(latch: EdgeLatch, readings: AxisReadings) -> Event {
    match readings.complete_spec() {
        Some(samples) => Event::Sampled(Controller::refresh_spec(latch, samples)),
        None => Event::SampleFailed,
    }
}

/// Makes the event that opens a tick whose period has elapsed. A tick in
/// which any conversion failed is skipped as a whole: none of its readings
/// reaches a report.
pub fn sample(latch: &EdgeLatch, readings: &AxisReadings) -> (event: Event)
    ensures
        event == sampled_event(*latch, *readings),
{
    match readings.complete() {
        Some(samples) => Event::Sampled(Controller::refresh(latch, &samples)),
        None => Event::SampleFailed,
    }
}

/// Whether a run of events holds a sampled snapshot.
pub open spec fn any_sampled(events: Seq<Event>) -> bool {
    exists|i: int| 0 <= i < events.len() && (#[trigger] events[i]) is Sampled
}

/// Whether every snapshot in a run of events encodes to `report`.
pub open spec fn samples_agree(layout: Layout, events: Seq<Event>, report: JoystickReport) -> bool {
    forall|i: int|
        0 <= i < events.len() ==> ((#[trigger] events[i]) matches Event::Sampled(state)
            ==> encode_spec(state, layout) == report)
}

impl View for ControlLoop {
    type V = LoopState;

    closed spec fn view(&self) -> LoopState {
        LoopState {
            layout: self.layout,
            last_report: self.last_report,
            shown: self.shown,
            status: self.status,
        }
    }
}

impl ControlLoop {
    /// A loop before its first tick.
    pub fn new(layout: Layout) -> (out: ControlLoop)
        ensures
            out@ == LoopState::initial(layout),
    {
        ControlLoop {
            layout,
            last_report: JoystickReport::default(),
            shown: StatusColor::Green,
            status: StatusColor::Green,
        }
    }

    /// The table that reports are encoded with.
    pub fn layout(&self) -> (out: Layout)
        ensures
            out == self@.layout,
    {
        self.layout
    }

    /// The report of the last sampled tick.
    pub fn last_report(&self) -> (out: JoystickReport)
        ensures
            out == self@.last_report,
    {
        self.last_report
    }

    /// The colour that the indicator shows.
    pub fn shown(&self) -> (out: StatusColor)
        ensures
            out == self@.shown,
    {
        self.shown
    }

    /// The status colour, which the indicator may not show yet.
    pub fn status(&self) -> (out: StatusColor)
        ensures
            out == self@.status,
    {
        self.status
    }

    /// Takes one event and says what to do next.
    pub fn step(&mut self, event: Event) -> (action: Action)
        ensures
            (final(self)@, action) == old(self)@.step(event),
    {
        match event {
            Event::PeriodPending => Action::PollLink,
            Event::SampleFailed => Action::PollLink,
            Event::Sampled(state) => {
                let report = encode(&state, &self.layout);
                let changed = report != self.last_report;
                *self = ControlLoop { last_report: report, ..*self };
                if changed {
                    Action::Transmit(report)
                } else {
                    Action::PollLink
                }
            },
            Event::Transmitted(outcome) => {
                *self = ControlLoop { status: after_transmit(outcome), ..*self };
                Action::PollLink
            },
            Event::LinkPolled(activity) => {
                let status = after_poll(self.status, activity);
                let changed = status != self.shown;
                *self = ControlLoop { status, shown: status, ..*self };
                if changed {
                    Action::SetIndicator(status)
                } else {
                    Action::Wait
                }
            },
        }
    }
}

/// What a step leaves alone: no step changes the layout, only a sampled
/// snapshot changes the last report, only an outcome or a poll changes the
/// status colour, and only a poll changes the colour on show.
pub proof fn lemma_step_keeps(state: LoopState, event: Event)
    ensures
        state.step(event).0.layout == state.layout,
        !(event is Sampled) ==> state.step(event).0.last_report == state.last_report,
        !(event is Transmitted || event is LinkPolled) ==> state.step(event).0.status
            == state.status,
        !(event is LinkPolled) ==> state.step(event).0.shown == state.shown,
{
}

/// A transmission is asked for by a sampled snapshot whose report differs
/// from the last one, and by nothing else; the report asked to be sent is the
/// snapshot's.
pub proof fn lemma_transmit_only_on_change(state: LoopState, event: Event)
    ensures
        state.step(event).1 is Transmit <==> (event matches Event::Sampled(snapshot)
            && encode_spec(snapshot, state.layout) != state.last_report),
        event matches Event::Sampled(snapshot) ==> state.step(event).0.last_report == encode_spec(
            snapshot,
            state.layout,
        ),
        state.step(event).1 matches Action::Transmit(report) ==> report == state.step(
            event,
        ).0.last_report,
{
}

/// The link is polled in every tick: whatever opens the tick leads to the
/// poll, at once or through the one transmission, whose outcome leads to the
/// poll whatever it is.
pub proof fn lemma_poll_follows(state: LoopState, event: Event)
    ensures
        (event is PeriodPending || event is SampleFailed || event is Sampled) ==> (state.step(
            event,
        ).1 is PollLink || state.step(event).1 is Transmit),
        event is Transmitted ==> state.step(event).1 is PollLink,
        event is LinkPolled ==> (state.step(event).1 is SetIndicator || state.step(event).1
            is Wait),
{
}

/// The indicator is written when the colour changes, and then once: a poll
/// leaves the colour on show equal to the status, asks for the indicator
/// exactly when that differs from what was on show, and a second poll with the
/// same finding asks for nothing.
pub proof fn lemma_indicator_once(state: LoopState, activity: bool)
    ensures
        ({
            let (next, action) = state.step(Event::LinkPolled(activity));
            &&& next.shown == next.status
            &&& next.status == color_after_poll(state.status, activity)
            &&& action == if next.status != state.shown {
                Action::SetIndicator(next.status)
            } else {
                Action::Wait
            }
            &&& next.step(Event::LinkPolled(activity)).1 is Wait
        }),
{
}

/// As long as the snapshots encode to one and the same report, that report is
/// asked to be sent at most once: the first snapshot asks for a transmission
/// if the report differs from the last one, and no later one asks again,
/// whatever outcomes and polls come in between.
pub proof fn lemma_unchanged_report_sent_once(
    state: LoopState,
    events: Seq<Event>,
    report: JoystickReport,
)
    requires
        samples_agree(state.layout, events, report),
    ensures
        state.run(events).layout == state.layout,
        state.run(events).last_report == if any_sampled(events) {
            report
        } else {
            state.last_report
        },
        state.transmissions(events) == if any_sampled(events) && state.last_report != report {
            1nat
        } else {
            0nat
        },
    decreases events.len(),
{
    if events.len() > 0 {
        let first = events.first();
        let rest = events.drop_first();
        let next = state.step(first).0;
        assert(events[0] == first);
        assert forall|i: int| 0 <= i < rest.len() implies ((#[trigger] rest[i]) matches Event::Sampled(
            snapshot,
        ) ==> encode_spec(snapshot, next.layout) == report) by {
            assert(rest[i] == events[i + 1]);
        }
        lemma_unchanged_report_sent_once(next, rest, report);
        if any_sampled(rest) {
            let i = choose|i: int| 0 <= i < rest.len() && (#[trigger] rest[i]) is Sampled;
            assert(events[i + 1] == rest[i]);
        }
        if any_sampled(events) && !(first is Sampled) {
            let i = choose|i: int| 0 <= i < events.len() && (#[trigger] events[i]) is Sampled;
            assert(rest[i - 1] == events[i]);
        }
    }
}

/// A snapshot that has not changed since the last sampled tick asks for no
/// transmission, whatever the outcome of the earlier one was and whatever was
/// polled in between.
pub proof fn lemma_unchanged_state_not_resent(
    state: LoopState,
    snapshot: Controller,
    between: Seq<Event>,
)
    requires
        !any_sampled(between),
    ensures
        state.step(Event::Sampled(snapshot)).0.run(between).step(Event::Sampled(snapshot)).1
            is PollLink,
{
    let first = state.step(Event::Sampled(snapshot)).0;
    lemma_unchanged_report_sent_once(first, between, first.last_report);
}

/// Backpressure: when the transport would block, the status turns cyan, the
/// link is still polled, and a following tick with the same report does not
/// try again.
pub proof fn lemma_backpressure(state: LoopState, snapshot: Controller, activity: bool)
    ensures
        ({
            let blocked = state.step(Event::Sampled(snapshot)).0.step(
                Event::Transmitted(TransmissionOutcome::WouldBlock),
            );
            let polled = blocked.0.step(Event::LinkPolled(activity));
            &&& blocked.0.status == StatusColor::Cyan
            &&& blocked.1 is PollLink
            &&& activity ==> polled.0.shown == StatusColor::Cyan
            &&& polled.0.step(Event::Sampled(snapshot)).1 is PollLink
        }),
{
}

} // verus!

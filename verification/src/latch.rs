//! Edge latch: the last known logical state of every digital input line.
//!
//! The interrupt handler is the only writer and the report loop the only
//! reader. A line's state changes on edges alone; no time filter is applied.
//! Each line is wired either active-high (pull-down: a rising edge presses it)
//! or active-low (pull-up: a falling edge presses it).

use vstd::prelude::*;

verus! {

/// A transition of a digital input line.
#[derive(Clone, Copy, Debug, PartialEq, Eq, Structural)]
pub enum Edge {
    /// From the low level to the high level.
    Rising,
    /// From the high level to the low level.
    Falling,
}

/// The electrical level at which a line counts as pressed.
#[derive(Clone, Copy, Debug, PartialEq, Eq, Structural)]
pub enum ActiveLevel {
    /// Pull-down wiring: pressed while the line is high.
    High,
    /// Pull-up wiring: pressed while the line is low.
    Low,
}

/// The digital input lines of the controller.
#[derive(Clone, Copy, Debug, PartialEq, Eq, Structural)]
pub enum Input {
    ThumbL,
    ThumbR,
    UnderL,
    UnderR,
    FrontL,
    FrontR,
    Start,
    Select,
}

/// The active level of every line: a constant of the board's wiring.
#[derive(Clone, Copy, Debug, PartialEq, Eq, Structural)]
pub struct LineLevels {
    pub thumb_l: ActiveLevel,
    pub thumb_r: ActiveLevel,
    pub under_l: ActiveLevel,
    pub under_r: ActiveLevel,
    pub front_l: ActiveLevel,
    pub front_r: ActiveLevel,
    pub start: ActiveLevel,
    pub select: ActiveLevel,
}

/// The edge interrupts that a line reports as pending.
#[derive(Clone, Copy, Debug, PartialEq, Eq, Structural)]
pub struct PendingEdges {
    /// A falling edge is pending.
    pub low: bool,
    /// A rising edge is pending.
    pub high: bool,
}

/// The logical state that a line of the given wiring has after `edge`: pressed
/// exactly when the edge brought the line to its active level.
pub open spec fn level_after(active: ActiveLevel, edge: Edge) -> bool {
    (edge == Edge::Rising) == (active == ActiveLevel::High)
}

/// The edge that one pass of the interrupt handler serves for a line: a
/// pending falling edge goes first, and serving it leaves a pending rising edge
/// for the next pass.
pub open spec fn serviced_edge(pending: PendingEdges) -> Option<Edge> {
    if pending.low {
        Some(Edge::Falling)
    } else if pending.high {
        Some(Edge::Rising)
    } else {
        None
    }
}

/// The last edge that a run of edges holds for one line, if it holds any.
pub open spec fn last_edge_on(edges: Seq<(Input, Edge)>, input: Input) -> Option<Edge>
    decreases edges.len(),
{
    if edges.len() == 0 {
        None
    } else if edges.last().0 == input {
        Some(edges.last().1)
    } else {
        last_edge_on(edges.drop_last(), input)
    }
}

impl LineLevels {
    /// The active level of one line.
    pub open spec fn level_of(self, input: Input) -> ActiveLevel {
        match input {
            Input::ThumbL => self.thumb_l,
            Input::ThumbR => self.thumb_r,
            Input::UnderL => self.under_l,
            Input::UnderR => self.under_r,
            Input::FrontL => self.front_l,
            Input::FrontR => self.front_r,
            Input::Start => self.start,
            Input::Select => self.select,
        }
    }

    /// The wiring of the stock board: the two thumb switches pull up, the six
    /// other buttons pull down.
    pub open spec fn stock_spec() -> LineLevels {
        LineLevels {
            thumb_l: ActiveLevel::Low,
            thumb_r: ActiveLevel::Low,
            under_l: ActiveLevel::High,
            under_r: ActiveLevel::High,
            front_l: ActiveLevel::High,
            front_r: ActiveLevel::High,
            start: ActiveLevel::High,
            select: ActiveLevel::High,
        }
    }

    /// The wiring of the stock board.
    pub fn stock() -> (out: LineLevels)
        ensures
            out == Self::stock_spec(),
    {
        LineLevels {
            thumb_l: ActiveLevel::Low,
            thumb_r: ActiveLevel::Low,
            under_l: ActiveLevel::High,
            under_r: ActiveLevel::High,
            front_l: ActiveLevel::High,
            front_r: ActiveLevel::High,
            start: ActiveLevel::High,
            select: ActiveLevel::High,
        }
    }

    /// The active level of one line.
    pub fn level(&self, input: Input) -> (out: ActiveLevel)
        ensures
            out == self.level_of(input),
    {
        match input {
            Input::ThumbL => self.thumb_l,
            Input::ThumbR => self.thumb_r,
            Input::UnderL => self.under_l,
            Input::UnderR => self.under_r,
            Input::FrontL => self.front_l,
            Input::FrontR => self.front_r,
            Input::Start => self.start,
            Input::Select => self.select,
        }
    }
}

/// The latched state of all lines, with the wiring that gives edges their
/// meaning.
#[derive(Clone, Copy, Debug, PartialEq, Eq, Structural)]
pub struct EdgeLatch {
    wiring: LineLevels,
    thumb_l: bool,
    thumb_r: bool,
    under_l: bool,
    under_r: bool,
    front_l: bool,
    front_r: bool,
    start: bool,
    select: bool,
}

impl EdgeLatch {
    /// The wiring that the latch was made with.
    pub closed spec fn wiring(self) -> LineLevels {
        self.wiring
    }

    /// The latched state of one line.
    pub closed spec fn value(self, input: Input) -> bool {
        match input {
            Input::ThumbL => self.thumb_l,
            Input::ThumbR => self.thumb_r,
            Input::UnderL => self.under_l,
            Input::UnderR => self.under_r,
            Input::FrontL => self.front_l,
            Input::FrontR => self.front_r,
            Input::Start => self.start,
            Input::Select => self.select,
        }
    }

    /// The latch after one edge on one line.
    pub closed spec fn after_edge(self, input: Input, edge: Edge) -> EdgeLatch {
        let pressed = level_after(self.wiring.level_of(input), edge);
        match input {
            Input::ThumbL => EdgeLatch { thumb_l: pressed, ..self },
            Input::ThumbR => EdgeLatch { thumb_r: pressed, ..self },
            Input::UnderL => EdgeLatch { under_l: pressed, ..self },
            Input::UnderR => EdgeLatch { under_r: pressed, ..self },
            Input::FrontL => EdgeLatch { front_l: pressed, ..self },
            Input::FrontR => EdgeLatch { front_r: pressed, ..self },
            Input::Start => EdgeLatch { start: pressed, ..self },
            Input::Select => EdgeLatch { select: pressed, ..self },
        }
    }

    /// The latch after a run of edges on any lines, oldest first.
    pub open spec fn after_edges(self, edges: Seq<(Input, Edge)>) -> EdgeLatch
        decreases edges.len(),
    {
        if edges.len() == 0 {
            self
        } else {
            self.after_edges(edges.drop_last()).after_edge(edges.last().0, edges.last().1)
        }
    }

    /// The latch after one pass of the interrupt handler over one line.
    pub open spec fn after_service(self, input: Input, pending: PendingEdges) -> EdgeLatch {
        match serviced_edge(pending) {
            Some(edge) => self.after_edge(input, edge),
            None => self,
        }
    }

    /// A latch on which no edge has arrived: every line reads released.
    pub fn new(wiring: LineLevels) -> (out: EdgeLatch)
        ensures
            out.wiring() == wiring,
            forall|input: Input| !out.value(input),
    {
        EdgeLatch {
            wiring,
            thumb_l: false,
            thumb_r: false,
            under_l: false,
            under_r: false,
            front_l: false,
            front_r: false,
            start: false,
            select: false,
        }
    }

    /// The current state of one line.
    pub fn read(&self, input: Input) -> (out: bool)
        ensures
            out == self.value(input),
    {
        match input {
            Input::ThumbL => self.thumb_l,
            Input::ThumbR => self.thumb_r,
            Input::UnderL => self.under_l,
            Input::UnderR => self.under_r,
            Input::FrontL => self.front_l,
            Input::FrontR => self.front_r,
            Input::Start => self.start,
            Input::Select => self.select,
        }
    }

    /// Records an edge on one line. The line then reads pressed exactly when
    /// the edge brought it to its active level; no other line changes.
    pub fn on_edge(&mut self, input: Input, edge: Edge)
        ensures
            *final(self) == old(self).after_edge(input, edge),
            final(self).wiring() == old(self).wiring(),
            final(self).value(input) == level_after(old(self).wiring().level_of(input), edge),
            forall|other: Input|
                other != input ==> final(self).value(other) == old(self).value(other),
    {
        let active = self.wiring.level(input);
        let pressed = match edge {
            Edge::Rising => active == ActiveLevel::High,
            Edge::Falling => active == ActiveLevel::Low,
        };
        let next = match input {
            Input::ThumbL => EdgeLatch { thumb_l: pressed, ..*self },
            Input::ThumbR => EdgeLatch { thumb_r: pressed, ..*self },
            Input::UnderL => EdgeLatch { under_l: pressed, ..*self },
            Input::UnderR => EdgeLatch { under_r: pressed, ..*self },
            Input::FrontL => EdgeLatch { front_l: pressed, ..*self },
            Input::FrontR => EdgeLatch { front_r: pressed, ..*self },
            Input::Start => EdgeLatch { start: pressed, ..*self },
            Input::Select => EdgeLatch { select: pressed, ..*self },
        };
        proof {
            self.lemma_after_edge(input, edge);
        }
        *self = next;
    }

    /// Records a rising edge on one line.
    pub fn on_rising_edge(&mut self, input: Input)
        ensures
            *final(self) == old(self).after_edge(input, Edge::Rising),
            final(self).wiring() == old(self).wiring(),
            final(self).value(input) == (old(self).wiring().level_of(input) == ActiveLevel::High),
            forall|other: Input|
                other != input ==> final(self).value(other) == old(self).value(other),
    {
        self.on_edge(input, Edge::Rising);
    }

    /// Records a falling edge on one line.
    pub fn on_falling_edge(&mut self, input: Input)
        ensures
            *final(self) == old(self).after_edge(input, Edge::Falling),
            final(self).wiring() == old(self).wiring(),
            final(self).value(input) == (old(self).wiring().level_of(input) == ActiveLevel::Low),
            forall|other: Input|
                other != input ==> final(self).value(other) == old(self).value(other),
    {
        self.on_edge(input, Edge::Falling);
    }

    /// One pass of the interrupt handler over one line: records the edge that
    /// `pending` calls for, if any, and returns it so that the caller can
    /// acknowledge that interrupt and no other. With nothing pending the latch
    /// is left as it was.
    pub fn service(&mut self, input: Input, pending: PendingEdges) -> (ack: Option<Edge>)
        ensures
            ack == serviced_edge(pending),
            *final(self) == old(self).after_service(input, pending),
    {
        if pending.low {
            self.on_edge(input, Edge::Falling);
            Some(Edge::Falling)
        } else if pending.high {
            self.on_edge(input, Edge::Rising);
            Some(Edge::Rising)
        } else {
            None
        }
    }

    /// What an edge changes: the line it arrived on takes the state that the
    /// wiring gives the edge, every other line and the wiring stay.
    pub proof fn lemma_after_edge(self, input: Input, edge: Edge)
        ensures
            self.after_edge(input, edge).wiring() == self.wiring(),
            self.after_edge(input, edge).value(input) == level_after(
                self.wiring().level_of(input),
                edge,
            ),
            forall|other: Input|
                other != input ==> self.after_edge(input, edge).value(other) == self.value(other),
    {
        match input {
            Input::ThumbL => {},
            Input::ThumbR => {},
            Input::UnderL => {},
            Input::UnderR => {},
            Input::FrontL => {},
            Input::FrontR => {},
            Input::Start => {},
            Input::Select => {},
        }
    }

    /// Round trip of one press: after a rising edge an active-high line reads
    /// pressed and an active-low line released; a falling edge right after it
    /// gives the opposite reading.
    pub proof fn lemma_edge_round_trip(self, input: Input)
        ensures
            self.after_edge(input, Edge::Rising).value(input) == (self.wiring().level_of(input)
                == ActiveLevel::High),
            self.after_edge(input, Edge::Rising).after_edge(input, Edge::Falling).value(input)
                == (self.wiring().level_of(input) != ActiveLevel::High),
    {
    }

    /// A read sees whole edges only: however the edges of different lines
    /// interleave, each line reads as its own last edge left it, or as before
    /// where none arrived on it, and the wiring stays.
    pub proof fn lemma_last_edge_wins(self, edges: Seq<(Input, Edge)>, input: Input)
        ensures
            self.after_edges(edges).wiring() == self.wiring(),
            self.after_edges(edges).value(input) == match last_edge_on(edges, input) {
                Some(edge) => level_after(self.wiring().level_of(input), edge),
                None => self.value(input),
            },
        decreases edges.len(),
    {
        if edges.len() > 0 {
            let before = self.after_edges(edges.drop_last());
            self.lemma_last_edge_wins(edges.drop_last(), input);
            before.lemma_after_edge(edges.last().0, edges.last().1);
        }
    }
}

} // verus!

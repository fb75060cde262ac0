//! Pipeline stages as state machines: the thread that runs a stage hands
//! each event in and performs what comes back. Failures are scoped to one
//! message; a stage ends only when its inbound channel closes.

use vstd::prelude::*;

use crate::beacon::{Beacon, BeaconId};
use crate::buffer::{pushed, window, Buffer};
use crate::locator::{ranked, resolved, Locator, PositioningError};
use crate::signal::{same_reading, Signal};

verus! {

/// Number of readings the aggregator keeps.
pub const BUFFER_CAPACITY: usize = 20;

/// Lifecycle of a pipeline stage.
#[derive(Debug, Clone, Copy, PartialEq, Eq, Structural)]
pub enum StageState {
    Idle,
    Running,
    Terminated,
}

/// What the aggregator stage is woken by.
pub enum Event {
    /// A reading arrived on the inbound channel.
    Reading(Signal<BeaconId>),
    /// The periodic timer fired; the current time in microseconds since the
    /// Unix epoch.
    Tick(i64),
    /// The inbound channel was closed by its producer.
    Closed,
}

/// The aggregator stage: buffers readings and emits the readings of the
/// trailing window on each timer tick.
pub struct Processor {
    state: StageState,
    buffer: Buffer<BeaconId>,
}

impl Processor {
    /// Where the stage is in its lifecycle.
    pub closed spec fn stage(&self) -> StageState {
        self.state
    }

    /// The buffered readings, newest first.
    pub closed spec fn buffered(&self) -> Seq<Signal<BeaconId>> {
        self.buffer@
    }

    /// The number of readings the stage keeps.
    pub closed spec fn capacity(&self) -> nat {
        self.buffer.capacity()
    }

    /// Where the stage is in its lifecycle.
    pub fn state(&self) -> (r: StageState)
        ensures
            r == self.stage(),
    {
        self.state
    }

    /// An idle stage with an empty buffer of `BUFFER_CAPACITY` readings.
    pub fn new() -> (r: Self)
        ensures
            r.stage() == StageState::Idle,
            r.buffered() == Seq::<Signal<BeaconId>>::empty(),
            r.capacity() == BUFFER_CAPACITY,
    {
        Processor { state: StageState::Idle, buffer: Buffer::new(BUFFER_CAPACITY) }
    }

    /// Handles one event and returns the batch to send downstream, if any.
    /// A reading is buffered; a tick emits the readings of the window ending
    /// at the tick, possibly none; a closed channel terminates the stage. A
    /// terminated stage ignores every event.
    pub fn handle(&mut self, event: Event) -> (r: Option<Vec<Signal<BeaconId>>>)
        ensures
            final(self).capacity() == old(self).capacity(),
            old(self).stage() == StageState::Terminated ==> {
                &&& r is None
                &&& final(self).stage() == StageState::Terminated
                &&& final(self).buffered() == old(self).buffered()
            },
            old(self).stage() != StageState::Terminated ==> match event {
                Event::Reading(s) => {
                    &&& r is None
                    &&& final(self).stage() == StageState::Running
                    &&& final(self).buffered() == pushed(
                        old(self).buffered(),
                        old(self).capacity(),
                        s,
                    )
                },
                Event::Tick(now) => {
                    &&& final(self).stage() == StageState::Running
                    &&& final(self).buffered() == old(self).buffered()
                    &&& r matches Some(batch) && batch@ == window(old(self).buffered(), now)
                },
                Event::Closed => {
                    &&& r is None
                    &&& final(self).stage() == StageState::Terminated
                    &&& final(self).buffered() == old(self).buffered()
                },
            },
    {
        if self.state == StageState::Terminated {
            return None;
        }
        match event {
            Event::Reading(s) => {
                self.state = StageState::Running;
                self.buffer.push(s);
                None
            },
            Event::Tick(now) => {
                self.state = StageState::Running;
                let batch = self.buffer.recent_signals_at(now);
                proof {
                    let w = window(self.buffer@, now);
                    assert forall|i: int| 0 <= i < batch@.len() implies batch@[i] == w[i] by {
                        assert(same_reading(w[i], batch@[i]));
                    }
                    assert(batch@ == w);
                }
                Some(batch)
            },
            Event::Closed => {
                self.state = StageState::Terminated;
                None
            },
        }
    }
}

impl Default for Processor {
    /// The same as `Processor::new`.
    fn default() -> (r: Self)
        ensures
            r.stage() == StageState::Idle,
            r.buffered() == Seq::<Signal<BeaconId>>::empty(),
            r.capacity() == BUFFER_CAPACITY,
    {
        Processor::new()
    }
}

/// What the local positioning stage does with one inbound message.
pub enum Step<P> {
    /// Fit a position to these readings, nearest beacon first, and send it on.
    Solve(Vec<Signal<Beacon<P>>>),
    /// This batch yields no position; log it and wait for the next one.
    Skip(PositioningError),
    /// The inbound channel is closed, or was before: stop the stage.
    Stop,
}

/// The local positioning stage: ranks each batch against the catalog. A
/// batch that cannot be used is skipped; the stage runs on until its inbound
/// channel closes.
pub struct LocatorStage<P> {
    state: StageState,
    locator: Locator<P>,
}

impl<P: Copy> LocatorStage<P> {
    /// Where the stage is in its lifecycle.
    pub closed spec fn stage(&self) -> StageState {
        self.state
    }

    /// The catalog the stage resolves readings against.
    pub closed spec fn catalog(&self) -> Seq<Beacon<P>> {
        self.locator.catalog@
    }

    /// An idle stage over `locator`'s catalog.
    pub fn new(locator: Locator<P>) -> (r: Self)
        ensures
            r.stage() == StageState::Idle,
            r.catalog() == locator.catalog@,
    {
        LocatorStage { state: StageState::Idle, locator }
    }

    /// Where the stage is in its lifecycle.
    pub fn state(&self) -> (r: StageState)
        ensures
            r == self.stage(),
    {
        self.state
    }

    /// Handles one message of the inbound channel: a batch, or `None` when
    /// the channel was closed.
    pub fn handle(&mut self, message: Option<Vec<Signal<BeaconId>>>) -> (r: Step<P>)
        ensures
            final(self).catalog() == old(self).catalog(),
            old(self).stage() == StageState::Terminated ==> r is Stop && final(self).stage()
                == StageState::Terminated,
            old(self).stage() != StageState::Terminated ==> match message {
                Some(batch) => {
                    &&& final(self).stage() == StageState::Running
                    &&& match r {
                        Step::Solve(v) => resolved(old(self).catalog(), batch@).len() > 0 && ranked(
                            resolved(old(self).catalog(), batch@),
                            v@,
                        ),
                        Step::Skip(e) => resolved(old(self).catalog(), batch@).len() == 0 && e
                            == PositioningError::InsufficientMeasurements,
                        Step::Stop => false,
                    }
                },
                None => r is Stop && final(self).stage() == StageState::Terminated,
            },
    {
        if self.state == StageState::Terminated {
            return Step::Stop;
        }
        match message {
            Some(batch) => {
                self.state = StageState::Running;
                match self.locator.rank_readings(&batch) {
                    Ok(v) => Step::Solve(v),
                    Err(e) => Step::Skip(e),
                }
            },
            None => {
                self.state = StageState::Terminated;
                Step::Stop
            },
        }
    }
}

} // verus!

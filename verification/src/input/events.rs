//! The pace of the event loop.

use vstd::prelude::*;

verus! {

/// Keeps the time of the last tick. Times are milliseconds on a clock of
/// the caller's that does not run backwards.
#[derive(Clone, Copy, PartialEq, Eq, Debug, Structural)]
pub struct EventHandler {
    /// The time between two ticks.
    pub tick_rate: u64,
    pub last_tick: u64,
}

impl EventHandler {
    /// The time that has gone by at `now` since the last tick; none if the
    /// clock has run backwards.
    pub open spec fn elapsed(self, now: u64) -> int {
        if now >= self.last_tick {
            now - self.last_tick
        } else {
            0
        }
    }

    /// The handler after a look at the event source at `now`. A waiting
    /// event leaves it as it is. Without one, a new tick starts at `now`
    /// once the time between two ticks has gone by.
    pub open spec fn polled(self, event_ready: bool, now: u64) -> Self {
        if !event_ready && self.elapsed(now) >= self.tick_rate {
            EventHandler { last_tick: now, ..self }
        } else {
            self
        }
    }

    /// A handler whose first tick starts at `now`.
    pub fn new(tick_rate: u64, now: u64) -> (handler: Self)
        ensures
            handler == (EventHandler { tick_rate, last_tick: now }),
    {
        Self { tick_rate, last_tick: now }
    }

    /// Takes note of a look at the event source at `now`, and says whether
    /// an event is there to be handled.
    pub fn next(&mut self, event_ready: bool, now: u64) -> (handle: bool)
        ensures
            handle == event_ready,
            *final(self) == old(self).polled(event_ready, now),
    {
        if event_ready {
            return true;
        }
        let elapsed = if now >= self.last_tick {
            now - self.last_tick
        } else {
            0
        };
        if elapsed >= self.tick_rate {
            self.last_tick = now;
        }
        false
    }
}

} // verus!

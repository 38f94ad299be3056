//! How much time passes between two frames.

use vstd::prelude::*;

verus! {

/// When the last frame was drawn, in nanoseconds since some fixed moment, once
/// there was one.
#[derive(Debug)]
pub struct FrameClock {
    last: Option<u64>,
}

/// The time from `earlier` to `later`, and none where `later` is not later.
pub open spec fn elapsed(earlier: u64, later: u64) -> u64 {
    if earlier < later {
        (later - earlier) as u64
    } else {
        0
    }
}

impl View for FrameClock {
    type V = Option<u64>;

    closed spec fn view(&self) -> Option<u64> {
        self.last
    }
}

impl FrameClock {
    /// A clock that has seen no frame.
    pub fn new() -> (clock: FrameClock)
        ensures
            clock@ == None::<u64>,
    {
        FrameClock { last: None }
    }

    /// Whether there was no frame yet, so that the clock wants a reading to
    /// start from.
    pub fn is_unset(&self) -> (unset: bool)
        ensures
            unset == (self@ is None),
    {
        self.last.is_none()
    }

    /// Starts the clock at `reading`, if it was not started before.
    pub fn start(&mut self, reading: u64)
        ensures
            final(self)@ == (match old(self)@ {
                Some(last) => Some(last),
                None => Some(reading),
            }),
    {
        let _ = self.last.get_or_insert(reading);
    }

    /// Moves on to `now` and says how long it has been since the last frame.
    pub fn tick(&mut self, now: u64) -> (delta: u64)
        requires
            old(self)@ is Some,
        ensures
            delta == elapsed(old(self)@->0, now),
            final(self)@ == Some(now),
    {
        let last = self.last.unwrap();
        self.last = Some(now);
        now.saturating_sub(last)
    }
}

} // verus!

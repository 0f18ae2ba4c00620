use vstd::prelude::*;

verus! {

/// The system clock: counts the timer interrupts since boot, one per
/// millisecond.
pub struct Clock {
    /// Time since boot, in ticks.
    pub milliseconds: usize,
}

impl Clock {
    /// Creates a new clock with a starting time of 0 milliseconds.
    pub fn new() -> (r: Clock)
        ensures
            r.milliseconds == 0,
    {
        Clock { milliseconds: 0 }
    }

    /// Increments the time by one unit.  Returns the new time.
    pub fn tick(&mut self) -> (r: usize)
        requires
            old(self).milliseconds < usize::MAX,
        ensures
            final(self).milliseconds == old(self).milliseconds + 1,
            r == final(self).milliseconds,
    {
        self.milliseconds = self.milliseconds + 1;
        self.milliseconds
    }

    /// Returns the number of milliseconds on this clock.
    pub fn now(&self) -> (r: usize)
        ensures
            r == self.milliseconds,
    {
        self.milliseconds
    }
}

} // verus!

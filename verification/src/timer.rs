use vstd::prelude::*;

verus! {

/// A countdown timer: ticks down from `when` and reports when it fires.
///
/// The function to run is recorded by its address; the caller invokes it
/// when `tick` reports that the timer fired.
#[derive(Clone, Copy, Debug, PartialEq, Eq, Structural)]
pub struct Timer {
    /// Ticks left until the timer fires.
    pub counter: usize,
    /// Address of the function to run when the timer fires.
    pub function: u64,
}

impl Timer {
    /// A timer that fires `when` ticks from now and then runs the function
    /// at address `what`.
    pub fn new(what: u64, when: usize) -> (r: Timer)
        ensures
            r.counter == when,
            r.function == what,
    {
        Timer { counter: when, function: what }
    }

    /// Advance this timer by one tick.  Returns true exactly when the timer
    /// reaches zero on this tick; a timer already at zero stays quiet.
    pub fn tick(&mut self) -> (r: bool)
        ensures
            final(self).function == old(self).function,
            old(self).counter == 0 ==> r == false && final(self).counter == 0,
            old(self).counter > 0 ==> final(self).counter == old(self).counter - 1 && r == (old(
                self,
            ).counter == 1),
    {
        if self.counter != 0 {
            self.counter = self.counter - 1;

            let finished = self.counter < 1;
            finished
        } else {
            false
        }
    }
}

} // verus!

use vstd::prelude::*;

use crate::ime::ImeState;

verus! {

/// Run flag of the demonstration event generator.
#[derive(Debug, Clone, Copy, PartialEq, Eq, Structural)]
pub struct MockState {
    pub running: bool,
}

impl MockState {
    pub fn new() -> (r: MockState)
        ensures
            !r.running,
    {
        MockState { running: false }
    }

    /// Marks the generator running; returns whether it should be started,
    /// that is whether it was not running already.
    pub fn start(&mut self) -> (r: bool)
        ensures
            final(self).running,
            r == !old(self).running,
    {
        let was = self.running;
        self.running = true;
        !was
    }

    pub fn stop(&mut self)
        ensures
            !final(self).running,
    {
        self.running = false;
    }
}

/// One round of the generator: the state it shows, and whether the next
/// round shows `On`. Rounds alternate between `On` and `Off`.
pub fn mock_round(is_on: bool) -> (r: (ImeState, bool))
    ensures
        r.0 == (if is_on { ImeState::On } else { ImeState::Off }),
        r.1 == !is_on,
{
    let s = if is_on { ImeState::On } else { ImeState::Off };
    (s, !is_on)
}

} // verus!

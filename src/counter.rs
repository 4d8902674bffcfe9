use vstd::prelude::*;

verus! {

/// A click counter.
#[derive(Clone, Copy, Debug, PartialEq, Eq, Structural)]
pub struct Counter {
    counter: i32,
}

/// Events for a counter.
#[derive(Clone, Copy, Debug, PartialEq, Eq, Structural)]
pub enum Msg {
    Increment,
}

impl Counter {
    pub closed spec fn value(self) -> int {
        self.counter as int
    }

    /// A counter at zero.
    pub fn create() -> (c: Counter)
        ensures
            c.value() == 0,
    {
        Counter { counter: 0 }
    }

    pub fn count(&self) -> (n: i32)
        ensures
            n as int == self.value(),
    {
        self.counter
    }

    /// Applies an event; says whether the view must be redrawn.
    pub fn update(&mut self, msg: Msg) -> (redraw: bool)
        requires
            old(self).value() < i32::MAX,
        ensures
            final(self).value() == old(self).value() + 1,
            redraw,
    {
        match msg {
            Msg::Increment => {
                self.counter = self.counter + 1;
                true
            },
        }
    }
}

} // verus!

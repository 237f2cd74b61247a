use vstd::prelude::*;

verus! {

/// A span of time between two frames, kept as an exact count of nanoseconds.
#[derive(Clone, Copy)]
pub struct Timestep {
    nanoseconds: u128,
}

impl Timestep {
    /// The number of nanoseconds this step spans.
    pub closed spec fn spec_nanoseconds(&self) -> nat {
        self.nanoseconds as nat
    }

    pub fn from_nano(nanoseconds: u128) -> (step: Timestep)
        ensures
            step.spec_nanoseconds() == nanoseconds,
    {
        Timestep { nanoseconds }
    }

    /// The exact length of the step, in nanoseconds.
    pub fn nanoseconds(&self) -> (n: u128)
        ensures
            n == self.spec_nanoseconds(),
    {
        self.nanoseconds
    }
}

} // verus!

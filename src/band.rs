use vstd::prelude::*;

verus! {

/// Default lower end of the step band that a chosen center must meet.
pub const MIN_STEPS: u32 = 150;

/// Default iteration cap, the upper (exclusive) end of the step band.
pub const MAX_STEPS: u32 = 1024;

/// The half-open range `[min_steps, max_steps)` of step counts that a view
/// center is accepted for; `max_steps` is also the iteration cap.
#[derive(Copy, Clone, Debug, PartialEq, Eq, Structural)]
pub struct StepBand {
    pub min_steps: u32,
    pub max_steps: u32,
}

impl StepBand {
    pub open spec fn wf(self) -> bool {
        self.min_steps < self.max_steps
    }

    pub open spec fn spec_contains(self, steps: u32) -> bool {
        self.min_steps <= steps < self.max_steps
    }

    /// The band `[min_steps, max_steps)`, or `None` when it would be empty.
    pub fn new(min_steps: u32, max_steps: u32) -> (r: Option<StepBand>)
        ensures
            r.is_some() <==> min_steps < max_steps,
            r matches Some(b) ==> b.min_steps == min_steps && b.max_steps == max_steps && b.wf(),
    {
        if min_steps < max_steps {
            Some(StepBand { min_steps, max_steps })
        } else {
            None
        }
    }

    /// Whether a step count lies in the band.
    pub fn contains(&self, steps: u32) -> (r: bool)
        ensures
            r == self.spec_contains(steps),
    {
        self.min_steps <= steps && steps < self.max_steps
    }

    /// One round of center selection: a candidate point together with its
    /// escape-time step count is accepted, and handed back with that count,
    /// exactly when the count lies in the band; otherwise another candidate
    /// must be drawn.
    pub fn accept_center<P>(&self, candidate: P, steps: u32) -> (r: Option<(P, u32)>)
        ensures
            self.spec_contains(steps) ==> r == Some((candidate, steps)),
            !self.spec_contains(steps) ==> r.is_none(),
            r matches Some(acc) ==> self.spec_contains(acc.1),
    {
        if self.contains(steps) {
            Some((candidate, steps))
        } else {
            None
        }
    }
}

impl Default for StepBand {
    fn default() -> (r: StepBand)
        ensures
            r.min_steps == MIN_STEPS,
            r.max_steps == MAX_STEPS,
            r.wf(),
    {
        StepBand { min_steps: MIN_STEPS, max_steps: MAX_STEPS }
    }
}

} // verus!

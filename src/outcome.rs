use vstd::prelude::*;

verus! {

/// Result of classifying a point: it escaped at a given step, or it stayed
/// bounded for every step up to the cap.
#[derive(Copy, Clone, Debug, PartialEq, Eq, Structural)]
pub enum Escape {
    Escaped(u32),
    Bounded,
}

impl Escape {
    /// Step count used to pick the point's color: the escape step, or zero for
    /// a point that stayed bounded.
    pub fn palette_step(&self) -> (r: u32)
        ensures
            match *self {
                Escape::Escaped(n) => r == n,
                Escape::Bounded => r == 0,
            },
    {
        match self {
            Escape::Escaped(n) => *n,
            Escape::Bounded => 0,
        }
    }
}

} // verus!

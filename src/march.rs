use vstd::prelude::*;

verus! {

/// Largest number of distance evaluations made along one ray.
pub const MAX_STEPS: u32 = 128;

/// What the marcher does after the signed distance at its current position
/// has been evaluated.
#[derive(Clone, Copy, Debug, PartialEq, Eq, Structural)]
pub enum MarchAction {
    /// The distance is negative: the position lies inside the surface.
    Hit,
    /// The position lies outside: step forward along the ray.
    Advance,
}

/// Step budget of one ray march. The caller evaluates the signed distance,
/// reports its sign with `observe`, and advances the position when told to;
/// a ray whose budget runs out before any hit is a miss.
#[derive(Debug)]
pub struct Marcher {
    steps: u32,
}

impl Marcher {
    #[verifier::type_invariant]
    spec fn within_budget(self) -> bool {
        self.steps <= MAX_STEPS
    }

    /// Number of evaluations answered with `Advance` so far.
    pub closed spec fn steps_taken(self) -> nat {
        self.steps as nat
    }

    pub fn new() -> (r: Self)
        ensures
            r.steps_taken() == 0,
    {
        Marcher { steps: 0 }
    }

    pub fn steps(&self) -> (r: u32)
        ensures
            r == self.steps_taken(),
            r <= MAX_STEPS,
    {
        proof {
            use_type_invariant(self);
        }
        self.steps
    }

    /// Whether another evaluation may be made; once this is false the ray
    /// has missed.
    pub fn has_budget(&self) -> (r: bool)
        ensures
            r == (self.steps_taken() < MAX_STEPS),
    {
        self.steps < MAX_STEPS
    }

    /// Decides on one evaluation: `inside` tells whether the signed distance
    /// at the current position is negative.
    pub fn observe(&mut self, inside: bool) -> (r: MarchAction)
        requires
            old(self).steps_taken() < MAX_STEPS,
        ensures
            inside ==> r == MarchAction::Hit && final(self).steps_taken() == old(
                self,
            ).steps_taken(),
            !inside ==> r == MarchAction::Advance && final(self).steps_taken() == old(
                self,
            ).steps_taken() + 1,
    {
        if inside {
            MarchAction::Hit
        } else {
            self.steps = self.steps + 1;
            MarchAction::Advance
        }
    }
}

} // verus!

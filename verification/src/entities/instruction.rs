//! How far the user has come in the guided tour.

use vstd::prelude::*;

verus! {

/// The stored step of the guided tour.
#[derive(Clone, Copy, Debug, PartialEq, Eq, Structural)]
pub struct Instruction {
    pub id: i64,
    pub instruction: u32,
}

/// What is to be done when the tour is set up.
#[derive(Clone, Copy, Debug, PartialEq, Eq, Structural)]
pub enum TourStart {
    /// A record is stored: go on with it.
    Stored(Instruction),
    /// Nothing is stored: store a record at this step first.
    Store { instruction: u32 },
}

impl Instruction {
    /// What is to be done when the tour is set up: go on with the stored
    /// record, or, where there is none, store one at step 0.
    pub fn init(stored: Option<Instruction>) -> (start: TourStart)
        ensures
            start == match stored {
                Some(found) => TourStart::Stored(found),
                None => (TourStart::Store { instruction: 0 }),
            },
    {
        match stored {
            Some(found) => TourStart::Stored(found),
            None => TourStart::Store { instruction: 0 },
        }
    }

    /// The record after the user has reached `step`: the tour never goes
    /// back, so a step at or below the stored one changes nothing.
    pub fn advance(&self, step: u32) -> (next: Instruction)
        ensures
            next.id == self.id,
            next.instruction == if self.instruction >= step {
                self.instruction
            } else {
                step
            },
    {
        if self.instruction >= step {
            *self
        } else {
            Instruction { id: self.id, instruction: step }
        }
    }
}

} // verus!

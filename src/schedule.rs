use vstd::prelude::*;

verus! {

/// The stages of a simulation tick, in the order they run: input is latched
/// before the move, the move comes before eating, and eating before growth.
#[derive(Debug, Hash, PartialEq, Eq, Structural, Clone, Copy)]
pub enum SnakeMovement {
    Input,
    Movement,
    Eating,
    Growth,
}

impl SnakeMovement {
    /// Position of the stage within a tick.
    pub open spec fn rank(self) -> nat {
        match self {
            SnakeMovement::Input => 0,
            SnakeMovement::Movement => 1,
            SnakeMovement::Eating => 2,
            SnakeMovement::Growth => 3,
        }
    }

    /// Whether this stage must run before `other` within a tick.
    pub fn runs_before(self, other: SnakeMovement) -> (r: bool)
        ensures
            r == (self.rank() < other.rank()),
    {
        let a: u8 = match self {
            SnakeMovement::Input => 0,
            SnakeMovement::Movement => 1,
            SnakeMovement::Eating => 2,
            SnakeMovement::Growth => 3,
        };
        let b: u8 = match other {
            SnakeMovement::Input => 0,
            SnakeMovement::Movement => 1,
            SnakeMovement::Eating => 2,
            SnakeMovement::Growth => 3,
        };
        a < b
    }
}

} // verus!

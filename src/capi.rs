use vstd::prelude::*;

verus! {

/// The family of points that a caller across a C boundary selects: `0` for
/// the walls, `1` for the centers.
#[derive(Debug, Clone, Copy, PartialEq, Eq, Structural)]
pub enum Position {
    Walls,
    Centers,
}

impl From<Position> for crate::position::Position {
    fn from(pos: Position) -> (r: crate::position::Position) {
        match pos {
            Position::Walls => crate::position::Position::Walls,
            Position::Centers => crate::position::Position::Centers,
        }
    }
}

impl vstd::std_specs::convert::FromSpecImpl<Position> for crate::position::Position {
    open spec fn obeys_from_spec() -> bool {
        true
    }

    open spec fn from_spec(pos: Position) -> crate::position::Position {
        match pos {
            Position::Walls => crate::position::Position::Walls,
            Position::Centers => crate::position::Position::Centers,
        }
    }
}

} // verus!

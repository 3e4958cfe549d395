use vstd::prelude::*;

verus! {

/// Reasons why a grid cannot be built from the given points.
#[derive(Debug, Clone, Copy, PartialEq, Eq, Structural)]
pub enum GridError {
    /// The grid would hold no physical cell.
    SingularGrid,
    /// The positions do not strictly increase.
    NonMonotonic,
    /// There is no ghost point beyond one end of the physical domain.
    MissingPositions,
}

impl GridError {
    /// Numeric code of the error for callers across a C boundary, where
    /// `0` stands for success.
    pub open spec fn code_spec(self) -> i32 {
        match self {
            GridError::SingularGrid => 1,
            GridError::NonMonotonic => 2,
            GridError::MissingPositions => 3,
        }
    }

    /// Numeric code of the error: distinct for each variant and never `0`.
    pub fn code(&self) -> (r: i32)
        ensures
            r == self.code_spec(),
            r != 0,
    {
        match self {
            GridError::SingularGrid => 1,
            GridError::NonMonotonic => 2,
            GridError::MissingPositions => 3,
        }
    }
}

} // verus!

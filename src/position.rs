use vstd::prelude::*;

verus! {

/// The two families of points in a staggered grid.
#[derive(Debug, Clone, Copy, PartialEq, Eq, Structural)]
pub enum Position {
    Walls,
    Centers,
}

/// The characters of `s` in lower case, as `str::to_lowercase` gives them.
pub uninterp spec fn lower_of(s: Seq<char>) -> Seq<char>;

/// Relies on `str::to_lowercase`: the result depends on the characters of
/// `s` alone.
#[verifier::external_body]
fn lowercase(s: &str) -> (r: String)
    ensures
        r@ == lower_of(s@),
{
    s.to_lowercase()
}

impl Position {
    /// The family named by `name`, a name already in lower case.
    pub open spec fn named_spec(name: Seq<char>) -> Option<Position> {
        if name == "centers"@ {
            Some(Position::Centers)
        } else if name == "walls"@ {
            Some(Position::Walls)
        } else {
            None
        }
    }

    /// The family named by `name`, which must be `centers` or `walls`
    /// exactly.
    pub fn from_lowercase_name(name: &str) -> (r: Option<Position>)
        ensures
            r == Self::named_spec(name@),
    {
        let name = name.to_owned();
        if name == "centers".to_owned() {
            Some(Position::Centers)
        } else if name == "walls".to_owned() {
            Some(Position::Walls)
        } else {
            None
        }
    }

    /// The family named by `name` in any case (`Walls`, `CENTERS`, ...).
    pub fn from_name(name: &str) -> (r: Option<Position>)
        ensures
            r == Self::named_spec(lower_of(name@)),
    {
        let lowered = lowercase(name);
        Self::from_lowercase_name(lowered.as_str())
    }
}

} // verus!

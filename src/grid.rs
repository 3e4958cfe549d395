use vstd::prelude::*;
use core::cmp::Ordering;
use vstd::std_specs::cmp::PartialOrdSpec;
use vstd::std_specs::ops::SubSpec;
use ndarray::Slice;

use crate::error::GridError;
use crate::position::Position;

verus! {

/// `ndarray::Slice`, the slice of an array axis: its public fields `start`,
/// `end` (exclusive, `None` for the end of the axis) and `step` are read as
/// they are declared there.
#[verifier::external_type_specification]
pub struct ExSlice(Slice);

/// `a` comes strictly before `b` in the order of the coordinate type.
pub open spec fn less<T: PartialOrd>(a: T, b: T) -> bool {
    a.partial_cmp_spec(&b) == Some(Ordering::Less)
}

/// Each point of `s` lies strictly before the next one.
pub open spec fn strictly_increasing<T: PartialOrd>(s: Seq<T>) -> bool {
    forall|i: int| 0 <= i < s.len() - 1 ==> #[trigger] less(s[i], s[i + 1])
}

/// The points of `s` whose index has the parity `p` (`0` or `1`), in order.
pub open spec fn every_other<T>(s: Seq<T>, p: int) -> Seq<T> {
    Seq::new(((s.len() + 1 - p) / 2) as nat, |j: int| s[p + 2 * j])
}

/// Two families taken in turn, starting with `first`: the inverse of
/// `every_other` when `first` holds the even points and `second` the odd.
pub open spec fn interleave<T>(first: Seq<T>, second: Seq<T>) -> Seq<T> {
    Seq::new(
        first.len() + second.len(),
        |k: int| if k % 2 == 0 { first[k / 2] } else { second[k / 2] },
    )
}

/// Where the order of the coordinate type is transitive, the points of each
/// parity of a strictly increasing sequence are strictly increasing too: the
/// walls and the centers of a grid ascend as its points do.
pub proof fn lemma_families_increasing<T: PartialOrd>(s: Seq<T>, p: int)
    requires
        0 <= p < 2,
        strictly_increasing(s),
        forall|a: T, b: T, c: T| #[trigger] less(a, b) && #[trigger] less(b, c) ==> less(a, c),
    ensures
        strictly_increasing(every_other(s, p)),
{
    let e = every_other(s, p);
    assert forall|j: int| 0 <= j < e.len() - 1 implies #[trigger] less(e[j], e[j + 1]) by {
        let i = p + 2 * j;
        assert(i + 2 < s.len());
        assert(less(s[i], s[i + 1]));
        assert(less(s[i + 1], s[i + 1 + 1]));
        assert(s[i + 1 + 1] == e[j + 1]);
    }
}

/// The index, among all the points, of the wall at the upper boundary of
/// the physical domain.
pub open spec fn upper_wall_index(nbulk_cells: int, ilower_wall: int) -> int {
    ilower_wall + 2 * nbulk_cells
}

/// There is at least one point before the lower boundary wall and one after
/// the upper boundary wall.
pub open spec fn has_ghost_padding(nbulk_cells: int, ilower_wall: int, len: int) -> bool {
    ilower_wall != 0 && upper_wall_index(nbulk_cells, ilower_wall) < len - 1
}

/// A 1D staggered grid with two families of points at [`Position::Walls`]
/// and [`Position::Centers`].
pub struct Grid1D<T> {
    walls: Vec<T>,
    centers: Vec<T>,
    ilower_wall: usize,
    iupper_wall: usize,
    ilower_center: usize,
    iupper_center: usize,
}

impl<T> Grid1D<T> {
    /// All the walls, ghosts included.
    pub closed spec fn walls_spec(&self) -> Seq<T> {
        self.walls@
    }

    /// All the centers, ghosts included.
    pub closed spec fn centers_spec(&self) -> Seq<T> {
        self.centers@
    }

    /// Inclusive bounds of the physical walls within `walls_spec`.
    pub closed spec fn wall_bulk(&self) -> (int, int) {
        (self.ilower_wall as int, self.iupper_wall as int)
    }

    /// Inclusive bounds of the physical centers within `centers_spec`.
    pub closed spec fn center_bulk(&self) -> (int, int) {
        (self.ilower_center as int, self.iupper_center as int)
    }

    /// The points of the family `position`, ghosts included.
    pub open spec fn points_spec(&self, position: Position) -> Seq<T> {
        match position {
            Position::Walls => self.walls_spec(),
            Position::Centers => self.centers_spec(),
        }
    }

    /// Inclusive bounds of the physical points of the family `position`.
    pub open spec fn bulk_spec(&self, position: Position) -> (int, int) {
        match position {
            Position::Walls => self.wall_bulk(),
            Position::Centers => self.center_bulk(),
        }
    }

    /// The grid is what `Grid1D::new` builds from these arguments when it
    /// succeeds: the points split by parity relative to `ilower_wall`, and
    /// the boundary indices mapped into each family.
    pub open spec fn built_from(&self, nbulk_cells: int, ilower_wall: int, positions: Seq<T>) -> bool {
        let iupper_wall = upper_wall_index(nbulk_cells, ilower_wall);
        &&& self.walls_spec() == every_other(positions, ilower_wall % 2)
        &&& self.centers_spec() == every_other(positions, 1 - ilower_wall % 2)
        &&& self.wall_bulk() == (ilower_wall / 2, iupper_wall / 2)
        &&& self.center_bulk() == ((ilower_wall + 1) / 2, (iupper_wall - 1) / 2)
    }

    /// The bounds lie within the families, there are one more physical walls
    /// than physical centers, and a ghost center lies beyond each end.
    #[verifier::type_invariant]
    closed spec fn inv(&self) -> bool {
        &&& 1 <= self.ilower_center <= self.iupper_center
        &&& self.iupper_center + 1 < self.centers.len()
        &&& self.ilower_wall < self.iupper_wall < self.walls.len()
        &&& self.iupper_wall - self.ilower_wall == self.iupper_center - self.ilower_center + 1
        &&& self.iupper_wall < isize::MAX
        &&& self.iupper_center < isize::MAX
    }
}

impl<T: Copy + PartialOrd> Grid1D<T> {
    /// Create a grid with `nbulk_cells` physical cells from `positions`, all
    /// the points (walls and centers in turn) in ascending order, where
    /// `ilower_wall` is the index of the wall at the lower boundary of the
    /// physical domain. The checks come in this order: the cell count, the
    /// ghost padding on both sides, then the order of the points.
    pub fn new(nbulk_cells: usize, ilower_wall: usize, positions: &[T]) -> (r: Result<
        Self,
        GridError,
    >)
        ensures
            (r == Err::<Self, GridError>(GridError::SingularGrid)) <==> nbulk_cells == 0,
            (r == Err::<Self, GridError>(GridError::MissingPositions)) <==> (nbulk_cells != 0
                && !has_ghost_padding(nbulk_cells as int, ilower_wall as int, positions@.len() as int)),
            (r == Err::<Self, GridError>(GridError::NonMonotonic)) ==> (nbulk_cells != 0
                && has_ghost_padding(nbulk_cells as int, ilower_wall as int, positions@.len() as int)
                && (T::obeys_partial_cmp_spec() ==> !strictly_increasing(positions@))),
            T::obeys_partial_cmp_spec() ==> ((r == Err::<Self, GridError>(GridError::NonMonotonic))
                <==> (nbulk_cells != 0
                && has_ghost_padding(nbulk_cells as int, ilower_wall as int, positions@.len() as int)
                && !strictly_increasing(positions@))),
            r matches Ok(g) ==> {
                &&& nbulk_cells != 0
                &&& has_ghost_padding(nbulk_cells as int, ilower_wall as int, positions@.len() as int)
                &&& T::obeys_partial_cmp_spec() ==> strictly_increasing(positions@)
                &&& g.built_from(nbulk_cells as int, ilower_wall as int, positions@)
            },
    {
        if nbulk_cells == 0 {
            return Err(GridError::SingularGrid);
        }
        let len = positions.len();
        let iupper_wall: usize = match nbulk_cells.checked_mul(2) {
            Some(d) => match ilower_wall.checked_add(d) {
                Some(u) => u,
                None => return Err(GridError::MissingPositions),
            },
            None => return Err(GridError::MissingPositions),
        };
        if ilower_wall == 0 || len == 0 || iupper_wall >= len - 1 {
            return Err(GridError::MissingPositions);
        }
        let mut i: usize = 0;
        while i + 1 < len
            invariant
                len == positions@.len(),
                nbulk_cells != 0,
                iupper_wall == upper_wall_index(nbulk_cells as int, ilower_wall as int),
                has_ghost_padding(nbulk_cells as int, ilower_wall as int, len as int),
                i < len,
                forall|j: int|
                    0 <= j < i ==> (T::obeys_partial_cmp_spec() ==> #[trigger] less(
                        positions@[j],
                        positions@[j + 1],
                    )),
            decreases len - i,
        {
            if !(positions[i] < positions[i + 1]) {
                proof {
                    if T::obeys_partial_cmp_spec() {
                        assert(!less(positions@[i as int], positions@[i + 1]));
                    }
                }
                return Err(GridError::NonMonotonic);
            }
            i = i + 1;
        }
        let (walls, centers) = split_by_parity(positions, ilower_wall % 2);
        let grid = Grid1D {
            walls,
            centers,
            ilower_wall: ilower_wall / 2,
            iupper_wall: iupper_wall / 2,
            ilower_center: (ilower_wall + 1) / 2,
            iupper_center: (iupper_wall - 1) / 2,
        };
        Ok(grid)
    }
}

impl<T> Grid1D<T> {
    /// The points of the family `position`, ghosts included.
    pub fn at(&self, position: Position) -> (r: &[T])
        ensures
            r@ == self.points_spec(position),
    {
        match position {
            Position::Walls => self.walls.as_slice(),
            Position::Centers => self.centers.as_slice(),
        }
    }

    /// Inclusive bounds of the physical (non-ghost) points of the family
    /// `position` within `at(position)`.
    pub fn bulk_range_of(&self, position: Position) -> (r: (usize, usize))
        ensures
            (r.0 as int, r.1 as int) == self.bulk_spec(position),
            r.0 <= r.1 < self.points_spec(position).len(),
            r.1 < isize::MAX,
    {
        proof {
            use_type_invariant(self);
        }
        match position {
            Position::Walls => (self.ilower_wall, self.iupper_wall),
            Position::Centers => (self.ilower_center, self.iupper_center),
        }
    }

    /// The part of the family `position` that excludes the ghost points,
    /// as a slice of an axis.
    pub fn bulk_slice_of(&self, position: Position) -> (r: Slice)
        ensures
            r.start == self.bulk_spec(position).0,
            r.end == Some((self.bulk_spec(position).1 + 1) as isize),
            r.step == 1,
    {
        let (lower, upper) = self.bulk_range_of(position);
        inclusive_slice(lower, upper)
    }
}

impl<T: core::ops::Sub<Output = T>> Grid1D<T> {
    /// The upper boundary wall minus the lower one, as the coordinate type
    /// defines subtraction.
    pub open spec fn span_spec(&self) -> T {
        self.walls_spec()[self.wall_bulk().1].sub_spec(self.walls_spec()[self.wall_bulk().0])
    }

    /// The span of a grid built from `positions` is the difference of the
    /// two boundary walls read directly from `positions`.
    pub proof fn lemma_span_from_positions(
        &self,
        nbulk_cells: int,
        ilower_wall: int,
        positions: Seq<T>,
    )
        requires
            nbulk_cells >= 1,
            has_ghost_padding(nbulk_cells, ilower_wall, positions.len() as int),
            self.built_from(nbulk_cells, ilower_wall, positions),
        ensures
            self.walls_spec()[self.wall_bulk().0] == positions[ilower_wall],
            self.walls_spec()[self.wall_bulk().1] == positions[upper_wall_index(
                nbulk_cells,
                ilower_wall,
            )],
            self.span_spec() == positions[upper_wall_index(nbulk_cells, ilower_wall)].sub_spec(
                positions[ilower_wall],
            ),
    {
        let p = ilower_wall % 2;
        let iupper_wall = upper_wall_index(nbulk_cells, ilower_wall);
        assert(p + 2 * (ilower_wall / 2) == ilower_wall);
        assert(p + 2 * (iupper_wall / 2) == iupper_wall);
    }
}

impl<T: Copy + core::ops::Sub<Output = T>> Grid1D<T> {
    /// Width of the physical domain: the upper boundary wall minus the lower
    /// one. The subtraction must be defined on these two points.
    pub fn span(&self) -> (r: T)
        requires
            self.walls_spec()[self.wall_bulk().1].sub_req(self.walls_spec()[self.wall_bulk().0]),
        ensures
            T::obeys_sub_spec() ==> r == self.span_spec(),
    {
        proof {
            use_type_invariant(self);
        }
        self.walls[self.iupper_wall] - self.walls[self.ilower_wall]
    }
}

impl<T> Grid1D<T> {
    /// Merging the walls and the centers of a grid back in turn, starting
    /// with the family that holds the first point, gives back exactly the
    /// points it was built from; as those ascend, this is their merge by
    /// ascending value.
    pub proof fn lemma_merge_round_trip(
        &self,
        nbulk_cells: int,
        ilower_wall: int,
        positions: Seq<T>,
    )
        requires
            ilower_wall >= 0,
            self.built_from(nbulk_cells, ilower_wall, positions),
        ensures
            positions == if ilower_wall % 2 == 0 {
                interleave(self.walls_spec(), self.centers_spec())
            } else {
                interleave(self.centers_spec(), self.walls_spec())
            },
    {
        let evens = every_other(positions, 0);
        let odds = every_other(positions, 1);
        let merged = interleave(evens, odds);
        assert forall|k: int| 0 <= k < positions.len() implies merged[k] == positions[k] by {
            if k % 2 == 0 {
                assert(0 + 2 * (k / 2) == k);
            } else {
                assert(1 + 2 * (k / 2) == k);
            }
        }
        assert(merged =~= positions);
    }

    /// A grid built with `nbulk_cells` cells has `nbulk_cells + 1` physical
    /// walls and `nbulk_cells` physical centers, all within the families,
    /// with at least one ghost center beyond each end of the domain.
    pub proof fn lemma_bulk_counts(&self, nbulk_cells: int, ilower_wall: int, positions: Seq<T>)
        requires
            nbulk_cells >= 1,
            has_ghost_padding(nbulk_cells, ilower_wall, positions.len() as int),
            self.built_from(nbulk_cells, ilower_wall, positions),
        ensures
            self.wall_bulk().1 - self.wall_bulk().0 + 1 == nbulk_cells + 1,
            self.center_bulk().1 - self.center_bulk().0 + 1 == nbulk_cells,
            0 <= self.wall_bulk().0 && self.wall_bulk().1 < self.walls_spec().len(),
            1 <= self.center_bulk().0 && self.center_bulk().1 + 1 < self.centers_spec().len(),
    {
    }
}

/// Relies on `ndarray::Slice::from` for an inclusive range of `usize`: the
/// start is kept, the end becomes exclusive, and the step is one.
#[verifier::external_body]
fn inclusive_slice(lower: usize, upper: usize) -> (r: Slice)
    requires
        lower <= upper < isize::MAX,
    ensures
        r.start == lower as isize,
        r.end == Some((upper + 1) as isize),
        r.step == 1,
{
    Slice::from(lower..=upper)
}

/// Split `s` into the points whose index has the parity `p` and the others,
/// in a single pass that keeps the order of each family.
fn split_by_parity<T: Copy>(s: &[T], p: usize) -> (r: (Vec<T>, Vec<T>))
    requires
        p < 2,
    ensures
        r.0@ == every_other(s@, p as int),
        r.1@ == every_other(s@, 1 - p as int),
{
    let mut same: Vec<T> = Vec::new();
    let mut other: Vec<T> = Vec::new();
    let mut k: usize = 0;
    while k < s.len()
        invariant
            p < 2,
            k <= s.len(),
            same@.len() == (k + 1 - p) / 2,
            other@.len() == (k + p) / 2,
            forall|j: int| 0 <= j < same@.len() ==> same@[j] == s@[p + 2 * j],
            forall|j: int| 0 <= j < other@.len() ==> other@[j] == s@[1 - p + 2 * j],
        decreases s.len() - k,
    {
        if k % 2 == p {
            same.push(s[k]);
        } else {
            other.push(s[k]);
        }
        k = k + 1;
    }
    assert(same@ =~= every_other(s@, p as int));
    assert(other@ =~= every_other(s@, 1 - p as int));
    (same, other)
}

} // verus!

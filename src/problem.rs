use vstd::prelude::*;

use crate::coord::Coord;

verus! {

/// Whether `x` lies in the open interval that `bounds` gives as
/// `(lower, upper)`.
pub open spec fn strictly_inside(bounds: (Coord, Coord), x: Coord) -> bool {
    bounds.0.spec_lt(x) && x.spec_lt(bounds.1)
}

/// A feasible position: exactly `dimensions` coordinates, each strictly inside
/// the bounds of its dimension. Coordinates and bounds are paired index by
/// index, as far as the shorter of the two sequences reaches.
pub open spec fn is_feasible(
    dimensions: nat,
    domain: Seq<(Coord, Coord)>,
    position: Seq<Coord>,
) -> bool {
    &&& position.len() == dimensions
    &&& forall|i: int|
        0 <= i < position.len() && i < domain.len() ==> #[trigger] strictly_inside(
            domain[i],
            position[i],
        )
}

/// Tests whether `position` is legal for a problem of `dimensions` inputs
/// over `domain`: the length must match, and every coordinate must lie
/// strictly between the lower and upper bound of its dimension.
pub fn is_legal_in_domain(dimensions: usize, domain: &[(Coord, Coord)], position: &[Coord]) -> (r:
    bool)
    ensures
        r == is_feasible(dimensions as nat, domain@, position@),
{
    if position.len() != dimensions {
        return false;
    }
    let n: usize = if position.len() < domain.len() {
        position.len()
    } else {
        domain.len()
    };
    let mut i: usize = 0;
    while i < n
        invariant
            n <= position@.len(),
            n <= domain@.len(),
            n == position@.len() || n == domain@.len(),
            i <= n,
            position@.len() == dimensions,
            forall|j: int| 0 <= j < i ==> #[trigger] strictly_inside(domain@[j], position@[j]),
        decreases n - i,
    {
        let (lower, upper) = domain[i];
        let x = position[i];
        if !(lower.lt(x) && x.lt(upper)) {
            assert(!strictly_inside(domain@[i as int], position@[i as int]));
            return false;
        }
        i += 1;
    }
    true
}

/// A well known optimization problem: a test landscape with its search
/// space, its recorded global minimum and a way to start a search in it.
/// Every problem can be made with no arguments, so that a harness can set up
/// a whole catalog of them alike.
pub trait Problem: Sized + Default {
    /// The number of inputs of the function.
    spec fn spec_dimensions(&self) -> nat;

    /// The bounds `(lower, upper)` of each input.
    spec fn spec_domain(&self) -> Seq<(Coord, Coord)>;

    /// The recorded global minimum: its position and the function's value there.
    spec fn spec_minimum(&self) -> (Seq<Coord>, Coord);

    /// Returns the dimensionality of the input domain, which is positive.
    fn dimensions(&self) -> (r: usize)
        ensures
            r == self.spec_dimensions(),
            r > 0,
    ;

    /// Returns the input domain of the function in terms of lower and upper
    /// bound for each input dimension: one pair per dimension.
    fn domain(&self) -> (r: Vec<(Coord, Coord)>)
        ensures
            r@ == self.spec_domain(),
            r@.len() == self.spec_dimensions(),
    ;

    /// Returns the position as well as the value of the global minimum. The
    /// position is legal for this problem.
    fn minimum(&self) -> (r: (Vec<Coord>, Coord))
        ensures
            r.0@ == self.spec_minimum().0,
            r.1 == self.spec_minimum().1,
            is_feasible(self.spec_dimensions(), self.spec_domain(), r.0@),
    ;

    /// Generates a random and feasible position to start a minimization.
    fn random_start(&self) -> (r: Vec<Coord>)
        ensures
            is_feasible(self.spec_dimensions(), self.spec_domain(), r@),
    ;

    /// Tests whether the supplied position is legal for this function.
    fn is_legal_position(&self, position: &[Coord]) -> (r: bool)
        ensures
            r == is_feasible(self.spec_dimensions(), self.spec_domain(), position@),
    {
        let dimensions = self.dimensions();
        let domain = self.domain();
        is_legal_in_domain(dimensions, domain.as_slice(), position)
    }
}

/// A position whose length is not the problem's dimensionality is never
/// legal, whatever its coordinates.
pub proof fn lemma_wrong_length_is_illegal<P: Problem>(p: &P, position: Seq<Coord>)
    requires
        position.len() != p.spec_dimensions(),
    ensures
        !is_feasible(p.spec_dimensions(), p.spec_domain(), position),
{
}

/// A position of the right length with a coordinate equal to the lower or
/// the upper bound of its dimension is not legal: the bounds are open.
pub proof fn lemma_boundary_is_illegal<P: Problem>(p: &P, position: Seq<Coord>, i: int)
    requires
        position.len() == p.spec_dimensions(),
        0 <= i < position.len(),
        i < p.spec_domain().len(),
        position[i].spec_equals(p.spec_domain()[i].0) || position[i].spec_equals(
            p.spec_domain()[i].1,
        ),
    ensures
        !is_feasible(p.spec_dimensions(), p.spec_domain(), position),
{
    assert(!strictly_inside(p.spec_domain()[i], position[i]));
}

/// A position of the right length whose every coordinate lies strictly
/// between the bounds of its dimension is legal.
pub proof fn lemma_interior_is_legal<P: Problem>(p: &P, position: Seq<Coord>)
    requires
        position.len() == p.spec_dimensions(),
        forall|i: int|
            0 <= i < position.len() ==> i < p.spec_domain().len() && #[trigger] strictly_inside(
                p.spec_domain()[i],
                position[i],
            ),
    ensures
        is_feasible(p.spec_dimensions(), p.spec_domain(), position),
{
}

} // verus!

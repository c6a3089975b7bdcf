use vstd::prelude::*;

verus! {

/// How many times a random or sampled layout is rerolled before giving up.
pub const MAX_PLACEMENT_ATTEMPTS: u32 = 300;

/// What a reroll loop does after judging its draw number `attempt`
/// (counted from 0).
#[derive(Clone, Copy, Debug, PartialEq, Eq)]
pub enum RerollStep {
    /// The draw was accepted: it is the result.
    Keep,
    /// The draw was rejected and attempts remain: draw again.
    Retry,
    /// The draw was rejected and it was the last of the
    /// `MAX_PLACEMENT_ATTEMPTS` checked draws.
    Exhausted,
}

/// The reroll decision after draw number `attempt` was judged `accepted`:
/// keep an accepted draw; otherwise retry while fewer than
/// `MAX_PLACEMENT_ATTEMPTS` draws have been judged, and stop after that.
pub fn reroll_step(attempt: u32, accepted: bool) -> (s: RerollStep)
    ensures
        accepted ==> s == RerollStep::Keep,
        !accepted && attempt + 1 < MAX_PLACEMENT_ATTEMPTS ==> s == RerollStep::Retry,
        !accepted && attempt + 1 >= MAX_PLACEMENT_ATTEMPTS ==> s == RerollStep::Exhausted,
{
    if accepted {
        RerollStep::Keep
    } else if attempt < MAX_PLACEMENT_ATTEMPTS - 1 {
        RerollStep::Retry
    } else {
        RerollStep::Exhausted
    }
}

/// Number of overhead light panels over the table.
pub const LIGHT_PANEL_COUNT: usize = 3;

/// Where a position falls in a piecewise-linear cushion boundary table.
#[derive(Clone, Copy, Debug, PartialEq, Eq)]
pub enum BoundaryPiece {
    /// At or before the first sample: the first sample's value applies.
    First,
    /// At or past the last sample, or inside no segment: the last sample's
    /// value applies.
    Last,
    /// Inside the segment from sample `i` to sample `i + 1`: interpolate.
    Between(usize),
}

/// Sample `i` and `i + 1` bracket `along`.
pub open spec fn brackets(xs: Seq<u32>, i: int, along: u32) -> bool {
    0 <= i && i + 1 < xs.len() && xs[i] <= along <= xs[i + 1]
}

/// Which piece of a boundary table applies at `along`, given the order keys
/// `xs` of the table's sample positions (in table order) and of `along`:
/// clamped to the first sample at or before it, to the last at or past it,
/// and otherwise the first segment whose ends bracket `along`.
pub open spec fn boundary_piece(xs: Seq<u32>, along: u32) -> BoundaryPiece
    recommends
        xs.len() >= 1,
{
    if along <= xs[0] {
        BoundaryPiece::First
    } else if along >= xs[xs.len() - 1] {
        BoundaryPiece::Last
    } else if exists|i: int| brackets(xs, i, along) {
        BoundaryPiece::Between(
            (choose|i: int| brackets(xs, i, along) && forall|j: int| 0 <= j < i ==> !brackets(xs, j, along)) as usize,
        )
    } else {
        BoundaryPiece::Last
    }
}

/// Finds the piece of a boundary table (sample positions given by their
/// order keys `xs`) that applies at `along`.
pub fn boundary_segment(xs: &Vec<u32>, along: u32) -> (p: BoundaryPiece)
    requires
        xs@.len() >= 1,
    ensures
        p == boundary_piece(xs@, along),
        p == BoundaryPiece::First <==> along <= xs@[0],
        p == BoundaryPiece::Last <==> (xs@[0] < along && xs@[xs@.len() - 1] <= along),
        p matches BoundaryPiece::Between(i) ==> {
            &&& xs@[0] < along < xs@[xs@.len() - 1]
            &&& i + 1 < xs@.len()
            &&& xs@[i as int] <= along <= xs@[i + 1]
            &&& forall|j: int| 0 <= j < i ==> !(xs@[j] <= along <= #[trigger] xs@[j + 1])
        },
{
    proof {
        if xs@[0] < along < xs@[xs@.len() - 1] {
            inside_positions_find_a_segment(xs@, along);
        }
    }
    let n = xs.len();
    if along <= xs[0] {
        return BoundaryPiece::First;
    }
    if along >= xs[n - 1] {
        return BoundaryPiece::Last;
    }
    let mut i: usize = 0;
    while i + 1 < n
        invariant
            n == xs@.len(),
            n >= 1,
            i + 1 <= n,
            xs@[0] < along < xs@[n - 1],
            forall|j: int| 0 <= j < i ==> !#[trigger] brackets(xs@, j, along),
        decreases n - i,
    {
        if xs[i] <= along && along <= xs[i + 1] {
            proof {
                let k = choose|k: int| brackets(xs@, k, along) && forall|j: int| 0 <= j < k ==> !brackets(xs@, j, along);
                assert(brackets(xs@, k, along) && forall|j: int| 0 <= j < k ==> !brackets(xs@, j, along)) by {
                    assert(brackets(xs@, i as int, along));
                }
                if k < i {
                    assert(!brackets(xs@, k, along));
                } else if k > i {
                    assert(brackets(xs@, i as int, along));
                }
                assert forall|j: int| 0 <= j < i implies !(xs@[j] <= along <= #[trigger] xs@[j + 1]) by {
                    assert(!brackets(xs@, j, along));
                }
            }
            return BoundaryPiece::Between(i);
        }
        i += 1;
    }
    assert(forall|j: int| !brackets(xs@, j, along)) by {
        assert forall|j: int| !brackets(xs@, j, along) by {
            if 0 <= j && j + 1 < xs@.len() {
                assert(j < i);
            }
        }
    }
    BoundaryPiece::Last
}

/// A position strictly between the first and last samples always lies in
/// some segment, whatever the order of the samples in between: the
/// last-value fallback of the search only serves positions at or past the
/// last sample.
pub proof fn inside_positions_find_a_segment(xs: Seq<u32>, along: u32)
    requires
        xs.len() >= 1,
        xs[0] < along < xs[xs.len() - 1],
    ensures
        exists|i: int| brackets(xs, i, along),
        boundary_piece(xs, along) is Between,
    decreases xs.len(),
{
    if xs[1] >= along {
        assert(brackets(xs, 0, along));
    } else {
        let rest = xs.drop_first();
        inside_positions_find_a_segment(rest, along);
        let i = choose|i: int| brackets(rest, i, along);
        assert(brackets(xs, i + 1, along));
    }
}

} // verus!

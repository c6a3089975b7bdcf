use vstd::prelude::*;

use crate::table::{reroll_step, RerollStep, MAX_PLACEMENT_ATTEMPTS};

verus! {

/// An inclusive `[row_min, row_max]` / `[col_min, col_max]` range of grid
/// indices a ball may be sampled from. A fixed cell is `min == max` on both
/// axes.
#[derive(Clone, Copy, Debug, PartialEq, Eq)]
pub struct CellRange {
    pub row: [usize; 2],
    pub col: [usize; 2],
}

/// One exercise of a puzzle set: where the object ball and the cue ball may
/// be placed.
#[derive(Debug)]
pub struct Exercise {
    pub label: Option<String>,
    pub object_ball: CellRange,
    pub cue_ball: CellRange,
}

/// A named collection of exercises.
#[derive(Debug)]
pub struct PuzzleSet {
    pub id: String,
    pub name: String,
    pub description: Option<String>,
    pub exercises: Vec<Exercise>,
}

/// Which grid axis of a range was out of bounds.
#[derive(Clone, Copy, Debug, PartialEq, Eq)]
pub enum Axis {
    Row,
    Col,
}

/// Which ball's range of an exercise was out of bounds.
#[derive(Clone, Copy, Debug, PartialEq, Eq)]
pub enum Ball {
    Object,
    Cue,
}

/// Why a puzzle set was rejected.
#[derive(Clone, Copy, Debug, PartialEq, Eq)]
pub enum PuzzleError {
    /// The set's own id differs from the id the set index lists it under.
    IdMismatch,
    /// `exercises[exercise]`'s range for `ball` is empty or leaves the grid
    /// along `axis`.
    RangeOutOfBounds { exercise: usize, ball: Ball, axis: Axis },
}

/// A sampled placement: grid cells `(row, col)` for both balls.
#[derive(Clone, Copy, Debug, PartialEq, Eq)]
pub struct Placement {
    pub object_cell: (usize, usize),
    pub cue_cell: (usize, usize),
}

impl CellRange {
    /// Rows `row[0]..=row[1]` form a non-empty range inside a grid of `n` rows.
    pub open spec fn rows_in_bounds(self, n: nat) -> bool {
        self.row[0] <= self.row[1] && self.row[1] < n
    }

    /// Cols `col[0]..=col[1]` form a non-empty range inside a grid of `n` cols.
    pub open spec fn cols_in_bounds(self, n: nat) -> bool {
        self.col[0] <= self.col[1] && self.col[1] < n
    }

    /// Both axes are non-empty ranges (what sampling needs).
    pub open spec fn non_empty(self) -> bool {
        self.row[0] <= self.row[1] && self.col[0] <= self.col[1]
    }

    /// `cell` lies inside this range.
    pub open spec fn contains(self, cell: (usize, usize)) -> bool {
        self.row[0] <= cell.0 <= self.row[1] && self.col[0] <= cell.1 <= self.col[1]
    }
}

/// The first axis along which `range` fails to fit a `rows x cols` grid,
/// rows checked before cols.
pub open spec fn range_error(range: CellRange, rows: nat, cols: nat) -> Option<Axis> {
    if !range.rows_in_bounds(rows) {
        Some(Axis::Row)
    } else if !range.cols_in_bounds(cols) {
        Some(Axis::Col)
    } else {
        None
    }
}

/// The first error of an exercise: its object-ball range, then its cue-ball
/// range.
pub open spec fn exercise_error(e: Exercise, rows: nat, cols: nat) -> Option<(Ball, Axis)> {
    match range_error(e.object_ball, rows, cols) {
        Some(a) => Some((Ball::Object, a)),
        None => match range_error(e.cue_ball, rows, cols) {
            Some(a) => Some((Ball::Cue, a)),
            None => None,
        },
    }
}

/// What validating `set` against its listed id and a `rows x cols` grid
/// gives: the id check comes first, then the exercises in order.
pub open spec fn puzzle_set_check(
    set_id: Seq<char>,
    listed_id: Seq<char>,
    exercises: Seq<Exercise>,
    rows: nat,
    cols: nat,
) -> Result<(), PuzzleError> {
    if set_id != listed_id {
        Err(PuzzleError::IdMismatch)
    } else if exists|i: int| 0 <= i < exercises.len() && exercise_error(exercises[i], rows, cols) is Some {
        let i = choose|i: int|
            0 <= i < exercises.len() && exercise_error(exercises[i], rows, cols) is Some
                && forall|j: int| 0 <= j < i ==> exercise_error(exercises[j], rows, cols) is None;
        let (ball, axis) = exercise_error(exercises[i], rows, cols)->0;
        Err(PuzzleError::RangeOutOfBounds { exercise: i as usize, ball, axis })
    } else {
        Ok(())
    }
}

/// Checks that `range` is a non-empty range inside a `n_rows x n_cols` grid;
/// the row axis is checked first.
pub fn validate_range(range: CellRange, n_rows: usize, n_cols: usize) -> (r: Result<(), Axis>)
    ensures
        r == (match range_error(range, n_rows as nat, n_cols as nat) {
            Some(a) => Err(a),
            None => Ok(()),
        }),
{
    if !(range.row[0] <= range.row[1] && range.row[1] < n_rows) {
        return Err(Axis::Row);
    }
    if !(range.col[0] <= range.col[1] && range.col[1] < n_cols) {
        return Err(Axis::Col);
    }
    Ok(())
}

/// Checks a loaded puzzle set: its own id must match the id the set index
/// lists it under, and every exercise's object-ball and cue-ball ranges must
/// be non-empty and inside the `n_rows x n_cols` grid. Reports the first
/// problem in that order.
pub fn validate_puzzle_set(set: &PuzzleSet, listed_id: &String, n_rows: usize, n_cols: usize) -> (r: Result<(), PuzzleError>)
    ensures
        r == puzzle_set_check(set.id@, listed_id@, set.exercises@, n_rows as nat, n_cols as nat),
        r is Ok <==> {
            &&& set.id@ == listed_id@
            &&& forall|i: int| 0 <= i < set.exercises@.len() ==> {
                let (o, c) = (#[trigger] set.exercises@[i].object_ball, set.exercises@[i].cue_ball);
                &&& o.row[0] <= o.row[1] && o.row[1] < n_rows && o.col[0] <= o.col[1] && o.col[1] < n_cols
                &&& c.row[0] <= c.row[1] && c.row[1] < n_rows && c.col[0] <= c.col[1] && c.col[1] < n_cols
            }
        },
        r == Err::<(), PuzzleError>(PuzzleError::IdMismatch) <==> set.id@ != listed_id@,
{
    proof {
        puzzle_set_accepted_exactly_when_in_bounds(set.id@, listed_id@, set.exercises@, n_rows as nat, n_cols as nat);
    }
    if !(set.id == *listed_id) {
        return Err(PuzzleError::IdMismatch);
    }
    let n = set.exercises.len();
    let mut i: usize = 0;
    while i < n
        invariant
            n == set.exercises@.len(),
            i <= n,
            set.id@ == listed_id@,
            forall|j: int| 0 <= j < i ==> exercise_error(#[trigger] set.exercises@[j], n_rows as nat, n_cols as nat) is None,
        decreases n - i,
    {
        let e = &set.exercises[i];
        let found = match validate_range(e.object_ball, n_rows, n_cols) {
            Err(axis) => Some((Ball::Object, axis)),
            Ok(()) => match validate_range(e.cue_ball, n_rows, n_cols) {
                Err(axis) => Some((Ball::Cue, axis)),
                Ok(()) => None,
            },
        };
        assert(found == exercise_error(set.exercises@[i as int], n_rows as nat, n_cols as nat));
        if let Some((ball, axis)) = found {
            proof {
                puzzle_set_accepted_exactly_when_in_bounds(set.id@, listed_id@, set.exercises@, n_rows as nat, n_cols as nat);
                let ex = set.exercises@;
                let k = choose|k: int|
                    0 <= k < ex.len() && exercise_error(ex[k], n_rows as nat, n_cols as nat) is Some
                        && forall|j: int| 0 <= j < k ==> exercise_error(ex[j], n_rows as nat, n_cols as nat) is None;
                assert(0 <= k < ex.len() && exercise_error(ex[k], n_rows as nat, n_cols as nat) is Some
                        && forall|j: int| 0 <= j < k ==> exercise_error(ex[j], n_rows as nat, n_cols as nat) is None) by {
                    assert(exercise_error(ex[i as int], n_rows as nat, n_cols as nat) is Some);
                }
                if k < i {
                    assert(exercise_error(ex[k], n_rows as nat, n_cols as nat) is None);
                } else if k > i {
                    assert(exercise_error(ex[i as int], n_rows as nat, n_cols as nat) is None);
                }
                assert(k == i);
            }
            return Err(PuzzleError::RangeOutOfBounds { exercise: i, ball, axis });
        }
        i += 1;
    }
    Ok(())
}

/// Draws a uniformly random index from `lo..=hi` with `rand::random_range`.
/// The contract claims only that the result lies in that inclusive range
/// (rand panics on an empty range, hence the precondition); which value
/// comes out is left open.
#[verifier::external_body]
fn random_index_inclusive(lo: usize, hi: usize) -> (r: usize)
    requires
        lo <= hi,
    ensures
        lo <= r <= hi,
{
    rand::random_range(lo..=hi)
}

/// A uniformly random cell `(row, col)` of `range`.
pub fn sample_cell(range: CellRange) -> (cell: (usize, usize))
    requires
        range.non_empty(),
    ensures
        range.contains(cell),
{
    let row = random_index_inclusive(range.row[0], range.row[1]);
    let col = random_index_inclusive(range.col[0], range.col[1]);
    (row, col)
}

/// Attempt number `i` of sampling `exercise` drew a placement inside its
/// ranges that `accept(i, _)` rejected.
pub open spec fn rejected_at<A: Fn(u32, Placement) -> bool>(exercise: &Exercise, accept: &A, i: u32) -> bool {
    exists|p: Placement| {
        &&& exercise.object_ball.contains(p.object_cell)
        &&& exercise.cue_ball.contains(p.cue_cell)
        &&& #[trigger] accept.ensures((i, p), false)
    }
}

/// Samples a placement for `exercise`: a random cell inside each ball's
/// range, judged by `accept(i, placement)` for attempt number `i` (the
/// caller's check that both balls clear the cushions and pockets, keep
/// their separation and leave a reachable pocket). After each attempt
/// `reroll_step` decides: the first accepted placement is the result; a
/// rejected one is followed by another while fewer than
/// `MAX_PLACEMENT_ATTEMPTS` have been judged; after that the result is
/// `None`.
///
/// Attempts are numbered from 0 and only numbers below
/// `MAX_PLACEMENT_ATTEMPTS` are judged. `Some(p)`: both cells lie in their
/// ranges, `p` was accepted as attempt `k`, and every attempt before `k`
/// was rejected. `None`: every one of the `MAX_PLACEMENT_ATTEMPTS` attempts
/// was rejected.
pub fn sample_exercise<A: Fn(u32, Placement) -> bool>(exercise: &Exercise, accept: &A) -> (r: Option<Placement>)
    requires
        exercise.object_ball.non_empty(),
        exercise.cue_ball.non_empty(),
        forall|i: u32, p: Placement| i < MAX_PLACEMENT_ATTEMPTS ==> #[trigger] accept.requires((i, p)),
    ensures
        r matches Some(p) ==> {
            &&& exercise.object_ball.contains(p.object_cell)
            &&& exercise.cue_ball.contains(p.cue_cell)
            &&& exists|k: u32| {
                &&& k < MAX_PLACEMENT_ATTEMPTS
                &&& #[trigger] accept.ensures((k, p), true)
                &&& forall|i: u32| i < k ==> #[trigger] rejected_at(exercise, accept, i)
            }
        },
        r is None ==> forall|i: u32| i < MAX_PLACEMENT_ATTEMPTS ==> #[trigger] rejected_at(exercise, accept, i),
{
    let mut attempt: u32 = 0;
    loop
        invariant
            attempt < MAX_PLACEMENT_ATTEMPTS,
            exercise.object_ball.non_empty(),
            exercise.cue_ball.non_empty(),
            forall|i: u32, p: Placement| i < MAX_PLACEMENT_ATTEMPTS ==> #[trigger] accept.requires((i, p)),
            forall|i: u32| i < attempt ==> #[trigger] rejected_at(exercise, accept, i),
        decreases MAX_PLACEMENT_ATTEMPTS - attempt,
    {
        let object_cell = sample_cell(exercise.object_ball);
        let cue_cell = sample_cell(exercise.cue_ball);
        let placement = Placement { object_cell, cue_cell };
        let accepted = accept(attempt, placement);
        if !accepted {
            assert(rejected_at(exercise, accept, attempt));
        }
        assert forall|i: u32| i < attempt + 1 && !accepted implies #[trigger] rejected_at(exercise, accept, i) by {
            if i < attempt {
            } else {
                assert(i == attempt);
            }
        }
        match reroll_step(attempt, accepted) {
            RerollStep::Keep => {
                assert(accept.ensures((attempt, placement), true));
                return Some(placement);
            },
            RerollStep::Exhausted => {
                assert(attempt + 1 == MAX_PLACEMENT_ATTEMPTS);
                return None;
            },
            RerollStep::Retry => attempt += 1,
        }
    }
}

/// A range with `min == max` on both axes is a fixed cell: the only cell
/// it contains is that one, so sampling it always gives the same cell.
pub proof fn fixed_range_holds_one_cell(range: CellRange, cell: (usize, usize))
    requires
        range.row[0] == range.row[1],
        range.col[0] == range.col[1],
        range.contains(cell),
    ensures
        cell == (range.row[0], range.col[0]),
{
}

/// A range that validates against a grid can be sampled, and every cell it
/// contains lies inside the grid.
pub proof fn valid_range_samples_inside_grid(range: CellRange, rows: nat, cols: nat, cell: (usize, usize))
    requires
        range_error(range, rows, cols) is None,
    ensures
        range.non_empty(),
        range.contains(cell) ==> cell.0 < rows && cell.1 < cols,
{
}

/// A range fits a grid of `rows` rows and `cols` columns exactly when its
/// row bounds are ordered and below the row count and its column bounds are
/// ordered and below the column count; rows are reported before columns.
pub proof fn range_check_is_bounds_check(range: CellRange, rows: nat, cols: nat)
    ensures
        range_error(range, rows, cols) is None <==> (range.row[0] <= range.row[1] && range.row[1] < rows
            && range.col[0] <= range.col[1] && range.col[1] < cols),
        range_error(range, rows, cols) == Some(Axis::Row) <==> !(range.row[0] <= range.row[1] && range.row[1] < rows),
        range_error(range, rows, cols) == Some(Axis::Col) <==> (range.row[0] <= range.row[1] && range.row[1] < rows
            && !(range.col[0] <= range.col[1] && range.col[1] < cols)),
{
}

/// Both ranges of `e` fit a grid of `rows` rows and `cols` columns: row
/// bounds ordered and below the row count, column bounds ordered and below
/// the column count.
proof fn lemma_exercise_error_is_bounds_check(e: Exercise, rows: nat, cols: nat)
    ensures
        exercise_error(e, rows, cols) is None <==> {
            let (o, c) = (e.object_ball, e.cue_ball);
            &&& o.row[0] <= o.row[1] && o.row[1] < rows && o.col[0] <= o.col[1] && o.col[1] < cols
            &&& c.row[0] <= c.row[1] && c.row[1] < rows && c.col[0] <= c.col[1] && c.col[1] < cols
        },
{
    range_check_is_bounds_check(e.object_ball, rows, cols);
    range_check_is_bounds_check(e.cue_ball, rows, cols);
}

/// A puzzle set is accepted exactly when its id is the one listed for it and,
/// in every exercise, both balls' row ranges are ordered and below the row
/// count and both balls' column ranges are ordered and below the column
/// count; it is rejected for its id exactly when the ids differ.
pub proof fn puzzle_set_accepted_exactly_when_in_bounds(
    set_id: Seq<char>,
    listed_id: Seq<char>,
    exercises: Seq<Exercise>,
    rows: nat,
    cols: nat,
)
    ensures
        puzzle_set_check(set_id, listed_id, exercises, rows, cols) is Ok <==> {
            &&& set_id == listed_id
            &&& forall|i: int| 0 <= i < exercises.len() ==> {
                let (o, c) = (#[trigger] exercises[i].object_ball, exercises[i].cue_ball);
                &&& o.row[0] <= o.row[1] && o.row[1] < rows && o.col[0] <= o.col[1] && o.col[1] < cols
                &&& c.row[0] <= c.row[1] && c.row[1] < rows && c.col[0] <= c.col[1] && c.col[1] < cols
            }
        },
        puzzle_set_check(set_id, listed_id, exercises, rows, cols) == Err::<(), PuzzleError>(PuzzleError::IdMismatch)
            <==> set_id != listed_id,
{
    assert forall|i: int| 0 <= i < exercises.len() implies (exercise_error(exercises[i], rows, cols) is None <==> {
        let (o, c) = (exercises[i].object_ball, exercises[i].cue_ball);
        &&& o.row[0] <= o.row[1] && o.row[1] < rows && o.col[0] <= o.col[1] && o.col[1] < cols
        &&& c.row[0] <= c.row[1] && c.row[1] < rows && c.col[0] <= c.col[1] && c.col[1] < cols
    }) by {
        lemma_exercise_error_is_bounds_check(exercises[i], rows, cols);
    }
    if set_id == listed_id && exists|i: int| 0 <= i < exercises.len() && exercise_error(exercises[i], rows, cols) is Some {
        let w = choose|i: int| 0 <= i < exercises.len() && exercise_error(exercises[i], rows, cols) is Some;
        lemma_first_error_exists(exercises, rows, cols, w);
    }
}

/// A reported range error names the first exercise that does not fit the
/// grid: the reported ball's range really is out of bounds along the
/// reported axis (rows checked before columns, the object ball before the
/// cue ball), and every exercise before it fits.
pub proof fn puzzle_set_reports_first_bad_range(
    set_id: Seq<char>,
    listed_id: Seq<char>,
    exercises: Seq<Exercise>,
    rows: nat,
    cols: nat,
)
    requires
        exercises.len() <= usize::MAX,
    ensures
        puzzle_set_check(set_id, listed_id, exercises, rows, cols) matches Err(PuzzleError::RangeOutOfBounds { exercise, ball, axis }) ==> {
            let e = exercises[exercise as int];
            let r = if ball == Ball::Object { e.object_ball } else { e.cue_ball };
            &&& set_id == listed_id
            &&& exercise < exercises.len()
            &&& (axis == Axis::Row <==> !(r.row[0] <= r.row[1] && r.row[1] < rows))
            &&& (axis == Axis::Col ==> !(r.col[0] <= r.col[1] && r.col[1] < cols))
            &&& (ball == Ball::Cue ==> (e.object_ball.row[0] <= e.object_ball.row[1] && e.object_ball.row[1] < rows
                && e.object_ball.col[0] <= e.object_ball.col[1] && e.object_ball.col[1] < cols))
            &&& forall|j: int| 0 <= j < exercise ==> {
                let (o, c) = (#[trigger] exercises[j].object_ball, exercises[j].cue_ball);
                &&& o.row[0] <= o.row[1] && o.row[1] < rows && o.col[0] <= o.col[1] && o.col[1] < cols
                &&& c.row[0] <= c.row[1] && c.row[1] < rows && c.col[0] <= c.col[1] && c.col[1] < cols
            }
        },
{
    if set_id == listed_id && exists|i: int| 0 <= i < exercises.len() && exercise_error(exercises[i], rows, cols) is Some {
        let w = choose|i: int| 0 <= i < exercises.len() && exercise_error(exercises[i], rows, cols) is Some;
        lemma_first_error_exists(exercises, rows, cols, w);
        let k = choose|i: int|
            0 <= i < exercises.len() && exercise_error(exercises[i], rows, cols) is Some
                && forall|j: int| 0 <= j < i ==> exercise_error(exercises[j], rows, cols) is None;
        assert((k as usize) as int == k);
        range_check_is_bounds_check(exercises[k].object_ball, rows, cols);
        range_check_is_bounds_check(exercises[k].cue_ball, rows, cols);
        assert forall|j: int| 0 <= j < k implies {
            let (o, c) = (#[trigger] exercises[j].object_ball, exercises[j].cue_ball);
            &&& o.row[0] <= o.row[1] && o.row[1] < rows && o.col[0] <= o.col[1] && o.col[1] < cols
            &&& c.row[0] <= c.row[1] && c.row[1] < rows && c.col[0] <= c.col[1] && c.col[1] < cols
        } by {
            lemma_exercise_error_is_bounds_check(exercises[j], rows, cols);
        }
    }
}

/// If some exercise has an error, there is a first one.
proof fn lemma_first_error_exists(exercises: Seq<Exercise>, rows: nat, cols: nat, w: int)
    requires
        0 <= w < exercises.len(),
        exercise_error(exercises[w], rows, cols) is Some,
    ensures
        exists|i: int|
            0 <= i < exercises.len() && exercise_error(exercises[i], rows, cols) is Some
                && forall|j: int| 0 <= j < i ==> exercise_error(exercises[j], rows, cols) is None,
    decreases w,
{
    if exists|j: int| 0 <= j < w && exercise_error(exercises[j], rows, cols) is Some {
        let j = choose|j: int| 0 <= j < w && exercise_error(exercises[j], rows, cols) is Some;
        lemma_first_error_exists(exercises, rows, cols, j);
    }
}

} // verus!

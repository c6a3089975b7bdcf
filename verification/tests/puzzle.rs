use snooker_aim::puzzle::{
    sample_cell, sample_exercise, validate_puzzle_set, validate_range, Axis, Ball, CellRange,
    Exercise, Placement, PuzzleError, PuzzleSet,
};
use snooker_aim::table::MAX_PLACEMENT_ATTEMPTS;
use std::cell::Cell;

fn cell(v: usize) -> CellRange {
    CellRange { row: [v, v], col: [v, v] }
}

fn exercise(object_ball: CellRange, cue_ball: CellRange) -> Exercise {
    Exercise { label: None, object_ball, cue_ball }
}

fn set(id: &str, exercises: Vec<Exercise>) -> PuzzleSet {
    PuzzleSet { id: id.to_string(), name: "Set".to_string(), description: None, exercises }
}

#[test]
fn single_cell_range_always_samples_the_same_cell() {
    let range = cell(0);
    for _ in 0..10 {
        assert_eq!(sample_cell(range), (0, 0));
    }
}

#[test]
fn sampled_cells_stay_inside_the_range_and_vary() {
    let range = CellRange { row: [3, 12], col: [0, 6] };
    let mut saw_other_than_low = false;
    for _ in 0..200 {
        let (r, c) = sample_cell(range);
        assert!((3..=12).contains(&r));
        assert!(c <= 6);
        if r != 3 || c != 0 {
            saw_other_than_low = true;
        }
    }
    assert!(saw_other_than_low);
}

#[test]
fn range_inside_the_grid_is_accepted() {
    assert_eq!(validate_range(CellRange { row: [0, 20], col: [2, 6] }, 21, 7), Ok(()));
    assert_eq!(validate_range(cell(4), 5, 5), Ok(()));
}

#[test]
fn row_range_past_the_grid_is_rejected() {
    assert_eq!(validate_range(CellRange { row: [0, 21], col: [0, 0] }, 21, 7), Err(Axis::Row));
}

#[test]
fn reversed_row_range_is_rejected_before_cols() {
    assert_eq!(validate_range(CellRange { row: [3, 2], col: [9, 9] }, 21, 7), Err(Axis::Row));
}

#[test]
fn col_range_past_the_grid_is_rejected() {
    assert_eq!(validate_range(CellRange { row: [0, 0], col: [0, 7] }, 21, 7), Err(Axis::Col));
    assert_eq!(validate_range(CellRange { row: [0, 0], col: [5, 4] }, 21, 7), Err(Axis::Col));
}

#[test]
fn puzzle_set_with_valid_ranges_passes() {
    let s = set("line_up", vec![exercise(cell(1), cell(2)), exercise(cell(0), CellRange { row: [0, 4], col: [0, 4] })]);
    assert_eq!(validate_puzzle_set(&s, &"line_up".to_string(), 5, 5), Ok(()));
}

#[test]
fn puzzle_set_id_must_match_its_index_entry() {
    let s = set("line_up", vec![exercise(cell(9), cell(9))]);
    assert_eq!(validate_puzzle_set(&s, &"lineup".to_string(), 5, 5), Err(PuzzleError::IdMismatch));
}

#[test]
fn first_bad_range_is_reported() {
    let s = set(
        "drills",
        vec![
            exercise(cell(1), cell(1)),
            exercise(cell(2), CellRange { row: [0, 0], col: [0, 5] }),
            exercise(cell(7), cell(7)),
        ],
    );
    assert_eq!(
        validate_puzzle_set(&s, &"drills".to_string(), 5, 5),
        Err(PuzzleError::RangeOutOfBounds { exercise: 1, ball: Ball::Cue, axis: Axis::Col })
    );
    let t = set("drills", vec![exercise(CellRange { row: [0, 5], col: [0, 0] }, cell(9))]);
    assert_eq!(
        validate_puzzle_set(&t, &"drills".to_string(), 5, 5),
        Err(PuzzleError::RangeOutOfBounds { exercise: 0, ball: Ball::Object, axis: Axis::Row })
    );
}

#[test]
fn accepted_sample_lies_in_both_ranges() {
    let e = exercise(CellRange { row: [10, 10], col: [3, 3] }, CellRange { row: [0, 20], col: [0, 6] });
    for _ in 0..50 {
        let p = sample_exercise(&e, &|_i: u32, _p: Placement| true).unwrap();
        assert_eq!(p.object_cell, (10, 3));
        assert!(p.cue_cell.0 <= 20 && p.cue_cell.1 <= 6);
    }
}

#[test]
fn sampling_rerolls_until_accepted() {
    let e = exercise(cell(2), CellRange { row: [0, 3], col: [0, 3] });
    let p = sample_exercise(&e, &|_i: u32, p: Placement| p.cue_cell == (3, 1)).unwrap();
    assert_eq!(p, Placement { object_cell: (2, 2), cue_cell: (3, 1) });
}

#[test]
fn sampling_gives_up_after_the_attempt_limit() {
    let calls = Cell::new(0u32);
    let e = exercise(cell(0), cell(1));
    let r = sample_exercise(&e, &|_i: u32, _p: Placement| {
        calls.set(calls.get() + 1);
        false
    });
    assert_eq!(r, None);
    assert_eq!(calls.get(), MAX_PLACEMENT_ATTEMPTS);
}

#[test]
fn first_accepted_sample_stops_the_rerolls() {
    let calls = Cell::new(0u32);
    let e = exercise(cell(0), CellRange { row: [0, 9], col: [0, 9] });
    let r = sample_exercise(&e, &|_i: u32, _p: Placement| {
        calls.set(calls.get() + 1);
        calls.get() == 3
    });
    assert!(r.is_some());
    assert_eq!(calls.get(), 3);
}

#[test]
fn attempts_are_numbered_from_zero() {
    let seen = std::cell::RefCell::new(Vec::new());
    let e = exercise(cell(0), cell(1));
    let r = sample_exercise(&e, &|i: u32, _p: Placement| {
        seen.borrow_mut().push(i);
        i == 5
    });
    assert!(r.is_some());
    assert_eq!(*seen.borrow(), vec![0, 1, 2, 3, 4, 5]);
}

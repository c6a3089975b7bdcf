use snooker_aim::table::{boundary_segment, BoundaryPiece};

#[test]
fn positions_outside_the_table_clamp_to_its_ends() {
    let xs = vec![10, 20, 30, 40];
    assert_eq!(boundary_segment(&xs, 5), BoundaryPiece::First);
    assert_eq!(boundary_segment(&xs, 10), BoundaryPiece::First);
    assert_eq!(boundary_segment(&xs, 40), BoundaryPiece::Last);
    assert_eq!(boundary_segment(&xs, 99), BoundaryPiece::Last);
}

#[test]
fn first_bracketing_segment_is_found() {
    let xs = vec![10, 20, 30, 40];
    assert_eq!(boundary_segment(&xs, 15), BoundaryPiece::Between(0));
    assert_eq!(boundary_segment(&xs, 20), BoundaryPiece::Between(0));
    assert_eq!(boundary_segment(&xs, 35), BoundaryPiece::Between(2));
}

#[test]
fn unsorted_table_uses_the_first_bracketing_segment() {
    let xs = vec![10, 50, 12, 20];
    assert_eq!(boundary_segment(&xs, 15), BoundaryPiece::Between(0));
    let ys = vec![10, 5, 9, 30];
    assert_eq!(boundary_segment(&ys, 12), BoundaryPiece::Between(2));
}

use snooker_aim::table::{reroll_step, RerollStep, MAX_PLACEMENT_ATTEMPTS};

#[test]
fn reroll_keeps_an_accepted_draw() {
    assert_eq!(reroll_step(0, true), RerollStep::Keep);
    assert_eq!(reroll_step(MAX_PLACEMENT_ATTEMPTS - 1, true), RerollStep::Keep);
}

#[test]
fn reroll_retries_until_the_last_attempt() {
    assert_eq!(reroll_step(0, false), RerollStep::Retry);
    assert_eq!(reroll_step(MAX_PLACEMENT_ATTEMPTS - 2, false), RerollStep::Retry);
    assert_eq!(reroll_step(MAX_PLACEMENT_ATTEMPTS - 1, false), RerollStep::Exhausted);
}

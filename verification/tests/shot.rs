use snooker_aim::shot::random_shot_setup;
use snooker_aim::table::MAX_PLACEMENT_ATTEMPTS;
use std::cell::Cell;

#[test]
fn first_realistic_draw_is_kept() {
    let n = Cell::new(0u32);
    let draw = |_i: u32| {
        n.set(n.get() + 1);
        n.get()
    };
    let r = random_shot_setup(&draw, &|_i: u32, d: &u32| *d == 4);
    assert_eq!(r, 4);
    assert_eq!(n.get(), 4);
}

#[test]
fn unchecked_draw_follows_the_attempt_limit() {
    let n = Cell::new(0u32);
    let draw = |_i: u32| {
        n.set(n.get() + 1);
        n.get()
    };
    let r = random_shot_setup(&draw, &|_i: u32, _d: &u32| false);
    assert_eq!(r, MAX_PLACEMENT_ATTEMPTS + 1);
}

use snooker_aim::shot::{best_pocket, earliest_pocket, PocketChoice, PocketMeasure};

fn m(distance: Option<u32>, cut: Option<u32>) -> PocketMeasure {
    PocketMeasure { distance, cut }
}

#[test]
fn straightest_makeable_pot_is_chosen() {
    let ms = vec![m(Some(50), Some(30)), m(Some(40), Some(10)), m(Some(10), Some(20))];
    assert_eq!(best_pocket(&ms, 25), PocketChoice { pocket: Some(1), cut_from: Some(1) });
}

#[test]
fn equal_cuts_keep_the_first_pocket() {
    let ms = vec![m(Some(50), Some(10)), m(Some(40), Some(10))];
    assert_eq!(best_pocket(&ms, 25), PocketChoice { pocket: Some(0), cut_from: Some(0) });
}

#[test]
fn too_thin_a_cut_falls_back_to_the_nearest_pocket() {
    let ms = vec![m(Some(50), Some(30)), m(Some(40), Some(90)), m(Some(20), None), m(None, None)];
    assert_eq!(best_pocket(&ms, 25), PocketChoice { pocket: Some(2), cut_from: Some(0) });
}

#[test]
fn no_reachable_contact_point_reports_no_cut() {
    let ms = vec![m(Some(50), None), m(Some(40), None)];
    assert_eq!(best_pocket(&ms, 25), PocketChoice { pocket: Some(1), cut_from: None });
}

#[test]
fn nothing_measurable_chooses_nothing() {
    let ms = vec![m(None, None), m(None, None)];
    assert_eq!(best_pocket(&ms, 25), PocketChoice { pocket: None, cut_from: None });
    assert_eq!(best_pocket(&Vec::new(), 25), PocketChoice { pocket: None, cut_from: None });
}

#[test]
fn earliest_pocket_before_the_cushion_wins() {
    assert_eq!(earliest_pocket(&vec![Some(90), Some(30), None, Some(20)], 100), Some(3));
    assert_eq!(earliest_pocket(&vec![Some(30), Some(30)], 100), Some(0));
}

#[test]
fn pocket_reached_only_after_the_cushion_does_not_count() {
    assert_eq!(earliest_pocket(&vec![Some(120)], 100), None);
    assert_eq!(earliest_pocket(&vec![Some(100)], 100), None);
    assert_eq!(earliest_pocket(&vec![Some(150), Some(60)], 100), Some(1));
    assert_eq!(earliest_pocket(&vec![None, None], 100), None);
}

#[test]
fn at_most_one_unchecked_draw_follows_the_limit() {
    let n = Cell::new(0u32);
    let draw = |_i: u32| {
        n.set(n.get() + 1);
        n.get()
    };
    let _ = random_shot_setup(&draw, &|_i: u32, _d: &u32| false);
    assert_eq!(n.get(), MAX_PLACEMENT_ATTEMPTS + 1);
}

#[test]
fn draws_and_judgements_are_numbered_in_order() {
    let drawn = std::cell::RefCell::new(Vec::new());
    let judged = std::cell::RefCell::new(Vec::new());
    let draw = |i: u32| {
        drawn.borrow_mut().push(i);
        i
    };
    let r = random_shot_setup(&draw, &|i: u32, _d: &u32| {
        judged.borrow_mut().push(i);
        false
    });
    assert_eq!(r, MAX_PLACEMENT_ATTEMPTS);
    let expected_judged: Vec<u32> = (0..MAX_PLACEMENT_ATTEMPTS).collect();
    let expected_drawn: Vec<u32> = (0..=MAX_PLACEMENT_ATTEMPTS).collect();
    assert_eq!(*judged.borrow(), expected_judged);
    assert_eq!(*drawn.borrow(), expected_drawn);
}

use snooker_aim::game_state::{GameState, ResetOutcome};

type Game = GameState<i32, &'static str, u8>;

#[test]
fn new_session_defaults() {
    let g: Game = GameState::new(1, "layout");
    assert_eq!(g.camera(), 1);
    assert_eq!(g.aim_camera(), 1);
    assert!(!g.view_mode());
    assert!(g.show_ghost_ball());
    assert!(!g.show_aim_line());
    assert!(!g.help_visible());
    assert!(g.ghost_aim_visible());
    assert!(!g.show_collision_debug());
    assert!(g.shot_test().is_none());
    assert_eq!(*g.layout(), "layout");
}

#[test]
fn view_mode_resumes_the_inspection_camera() {
    let mut g: Game = GameState::new(1, "a");
    g.toggle_view_mode(2); // first entry: aim re-centered to 2
    assert!(g.view_mode());
    assert_eq!(g.camera(), 2);
    assert_eq!(g.aim_camera(), 2);
    g.set_camera(7); // inspect freely
    assert_eq!(g.aim_camera(), 2);
    g.toggle_view_mode(99); // back to aiming
    assert!(!g.view_mode());
    assert_eq!(g.camera(), 2);
    g.set_camera(3); // aim elsewhere
    assert_eq!(g.aim_camera(), 3);
    g.toggle_view_mode(99); // resumes at 7, aim frozen at 3 (no re-centering now)
    assert_eq!(g.camera(), 7);
    assert_eq!(g.aim_camera(), 3);
}

#[test]
fn new_layout_forgets_the_inspection_camera() {
    let mut g: Game = GameState::new(1, "a");
    g.toggle_view_mode(2);
    g.set_camera(7);
    g.start_layout("b", 10);
    assert!(!g.view_mode());
    assert_eq!(g.camera(), 10);
    assert_eq!(*g.layout(), "b");
    g.toggle_view_mode(11);
    assert_eq!(g.camera(), 11);
    assert_eq!(g.aim_camera(), 11);
}

#[test]
fn stance_presets_leave_view_mode_like_v() {
    let mut g: Game = GameState::new(1, "a");
    g.toggle_view_mode(2);
    g.set_camera(7);
    g.leave_view_mode_for_stance();
    assert!(!g.view_mode());
    assert_eq!(g.camera(), 2);
    g.set_camera(4);
    g.leave_view_mode_for_stance();
    assert_eq!(g.camera(), 4);
    g.toggle_view_mode(0);
    assert_eq!(g.camera(), 7);
}

#[test]
fn pot_line_preset_enters_view_mode_and_freezes_aim() {
    let mut g: Game = GameState::new(1, "a");
    g.enter_pot_line_view(5, 50);
    assert!(g.view_mode());
    assert_eq!(g.camera(), 50);
    assert_eq!(g.aim_camera(), 5);
    g.enter_pot_line_view(6, 60);
    assert_eq!(g.camera(), 60);
    assert_eq!(g.aim_camera(), 5);
    g.toggle_view_mode(0);
    assert_eq!(g.camera(), 5);
}

#[test]
fn reset_clears_a_tested_shot_first() {
    let mut g: Game = GameState::new(1, "a");
    assert_eq!(g.press_reset(), ResetOutcome::NewLayoutNeeded);
    g.record_shot_test(9);
    assert_eq!(*g.shot_test(), Some(9));
    assert_eq!(g.press_reset(), ResetOutcome::ClearedShotTest);
    assert!(g.shot_test().is_none());
    assert_eq!(g.press_reset(), ResetOutcome::NewLayoutNeeded);
}

#[test]
fn help_toggles_and_any_tap_closes_it() {
    let mut g: Game = GameState::new(1, "a");
    g.handle_global_toggles(false, false, true);
    assert!(!g.help_visible());
    g.handle_global_toggles(false, true, true);
    assert!(g.help_visible());
    g.handle_global_toggles(true, false, false);
    assert!(g.help_visible());
    assert!(g.show_collision_debug());
    g.handle_global_toggles(false, false, true);
    assert!(!g.help_visible());
}

#[test]
fn display_toggles_flip() {
    let mut g: Game = GameState::new(1, "a");
    g.toggle_ghost_ball();
    g.toggle_aim_line();
    g.toggle_ghost_aim_visible();
    assert!(!g.show_ghost_ball());
    assert!(g.show_aim_line());
    assert!(!g.ghost_aim_visible());
    g.toggle_ghost_ball();
    assert!(g.show_ghost_ball());
}

#[test]
fn pause_menu_opens_continues_and_quits() {
    let mut g: Game = GameState::new(1, "a");
    g.handle_menu(false, true, true);
    assert!(!g.menu_visible() && !g.quit_requested());
    g.handle_menu(true, false, false);
    assert!(g.menu_visible());
    g.handle_menu(false, true, false);
    assert!(!g.menu_visible());
    g.handle_menu(true, false, false);
    g.handle_menu(false, false, true);
    assert!(g.quit_requested());
}

#[test]
fn aim_stays_frozen_through_inspection_calls() {
    let mut g: Game = GameState::new(1, "a");
    g.toggle_view_mode(2);
    g.set_camera(8);
    g.handle_global_toggles(true, true, true);
    g.handle_menu(true, false, false);
    g.record_shot_test(4);
    g.toggle_ghost_ball();
    g.toggle_aim_line();
    g.toggle_ghost_aim_visible();
    assert_eq!(g.press_reset(), ResetOutcome::ClearedShotTest);
    g.enter_pot_line_view(30, 40);
    g.set_camera(9);
    assert!(g.view_mode());
    assert_eq!(g.camera(), 9);
    assert_eq!(g.aim_camera(), 2);
}

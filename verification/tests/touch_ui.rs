use snooker_aim::touch_ui::{menu_ui, opt_hit, touch_ui, Btn, Cursor, UiMetrics};

const DESKTOP: UiMetrics = UiMetrics { btn: 52, gap: 8, margin: 14, font: 16 };

fn at(x: i32, y: i32) -> Cursor {
    Cursor { x_floor: x, x_ceil: x, y_floor: y, y_ceil: y }
}

fn rect(b: &Btn) -> (i32, i32, i32, i32) {
    (b.x, b.y, b.w, b.h)
}

#[test]
fn desktop_layout_places_every_control() {
    let ui = touch_ui(1280, 800, DESKTOP, "NEXT", true);
    // bottom-left grid: rows at 800-14-52 = 734 and 734-60 = 674
    assert_eq!(rect(&ui.rot_left), (14, 674, 52, 52));
    assert_eq!(rect(&ui.pan_up), (74, 674, 52, 52));
    assert_eq!(rect(&ui.rot_right), (134, 674, 52, 52));
    assert_eq!(rect(&ui.zoom_in), (194, 674, 52, 52));
    assert_eq!(rect(&ui.pan_left), (14, 734, 52, 52));
    assert_eq!(rect(&ui.pan_down), (74, 734, 52, 52));
    assert_eq!(rect(&ui.pan_right), (134, 734, 52, 52));
    assert_eq!(rect(&ui.zoom_out), (194, 734, 52, 52));
    assert_eq!(rect(&ui.center), (254, 674, 112, 112));
    assert_eq!(rect(&ui.view), (14, 614, 352, 52));
    assert_eq!(rect(&ui.close_stance), (14, 554, 112, 52));
    assert_eq!(rect(&ui.stand_stance), (134, 554, 112, 52));
    assert_eq!(rect(&ui.pot_line), (254, 554, 112, 52));
    assert_eq!(rect(&ui.test), (1094, 614, 172, 172));
    assert_eq!(rect(&ui.help), (1214, 14, 52, 52));
    assert_eq!(rect(&ui.expand_toggle), (1214, 74, 52, 52));
    assert_eq!(rect(&ui.reset), (1094, 14, 112, 52));
    assert_eq!(rect(ui.ghost_ball.as_ref().unwrap()), (1094, 74, 112, 52));
    assert_eq!(rect(ui.aim.as_ref().unwrap()), (1094, 134, 112, 52));
    assert_eq!(ui.expand_toggle.label, ">>");
    assert_eq!(ui.reset.label, "NEXT");
    assert_eq!(ui.view.label, "LOOK");
    assert_eq!(ui.test.label, "HIT");
    assert_eq!(ui.help.font, 16);
}

#[test]
fn collapsed_layout_drops_ghost_and_aim() {
    let ui = touch_ui(1280, 800, DESKTOP, "CLEAR", false);
    assert!(ui.ghost_balls_absent());
}

trait Absent {
    fn ghost_balls_absent(&self) -> bool;
}

impl Absent for snooker_aim::touch_ui::TouchUi {
    fn ghost_balls_absent(&self) -> bool {
        self.ghost_ball.is_none() && self.aim.is_none() && self.expand_toggle.label == "<<" && self.reset.label == "CLEAR"
    }
}

#[test]
fn hit_includes_the_edges_and_nothing_outside() {
    let ui = touch_ui(1280, 800, DESKTOP, "NEXT", true);
    assert!(ui.help.hit(at(1214, 14)));
    assert!(ui.help.hit(at(1266, 66)));
    assert!(!ui.help.hit(at(1267, 30)));
    assert!(!ui.help.hit(Cursor { x_floor: 1266, x_ceil: 1267, y_floor: 30, y_ceil: 30 }));
    assert!(!ui.help.hit(Cursor { x_floor: 1213, x_ceil: 1214, y_floor: 30, y_ceil: 30 }));
}

#[test]
fn hit_any_sees_every_control_and_the_gaps_between_them() {
    let ui = touch_ui(1280, 800, DESKTOP, "NEXT", true);
    assert!(ui.hit_any(at(20, 700)));
    assert!(ui.hit_any(at(1100, 140)));
    assert!(!ui.hit_any(at(70, 700)));
    assert!(!ui.hit_any(at(640, 400)));
    let collapsed = touch_ui(1280, 800, DESKTOP, "NEXT", false);
    assert!(!collapsed.hit_any(at(1100, 140)));
}

#[test]
fn optional_button_only_hits_when_present() {
    let ui = touch_ui(1280, 800, DESKTOP, "NEXT", true);
    assert!(opt_hit(&ui.ghost_ball, at(1100, 80)));
    assert!(!opt_hit(&None, at(1100, 80)));
}

#[test]
fn menu_is_centered_with_quit_below_continue() {
    let menu = menu_ui(1280, 800, true);
    assert_eq!(rect(&menu.continue_btn), (510, 326, 260, 64));
    assert_eq!(rect(menu.quit_btn.as_ref().unwrap()), (510, 410, 260, 64));
    assert_eq!(menu.title_y, 266);
    assert_eq!(menu.continue_btn.label, "CONTINUE");
}

#[test]
fn menu_without_quit_has_one_button() {
    let menu = menu_ui(1281, 801, false);
    assert_eq!(rect(&menu.continue_btn), (510, 368, 260, 64));
    assert!(menu.quit_btn.is_none());
    assert_eq!(menu.title_y, 308);
}

#[test]
fn menu_division_rounds_toward_zero() {
    let menu = menu_ui(-3, -5, false);
    assert_eq!(menu.continue_btn.x, -1 - 130);
    assert_eq!(menu.continue_btn.y, -2 - 32);
}

fn all_buttons(ui: &snooker_aim::touch_ui::TouchUi) -> Vec<Btn> {
    let mut v = vec![
        ui.pan_up, ui.pan_down, ui.pan_left, ui.pan_right, ui.rot_left, ui.rot_right, ui.zoom_in,
        ui.zoom_out, ui.reset, ui.test, ui.expand_toggle, ui.view, ui.center, ui.help,
        ui.close_stance, ui.stand_stance, ui.pot_line,
    ];
    v.extend(ui.ghost_ball);
    v.extend(ui.aim);
    v
}

fn apart(a: &Btn, b: &Btn) -> bool {
    a.x + a.w < b.x || b.x + b.w < a.x || a.y + a.h < b.y || b.y + b.h < a.y
}

fn check_layout(w: i32, h: i32, m: UiMetrics) {
    for visible in [true, false] {
        let ui = touch_ui(w, h, m, "NEXT", visible);
        let bs = all_buttons(&ui);
        for (i, a) in bs.iter().enumerate() {
            assert!(a.x >= 0 && a.x + a.w <= w && a.y >= 0 && a.y + a.h <= h);
            for b in &bs[i + 1..] {
                assert!(apart(a, b), "{:?} overlaps {:?}", a, b);
            }
        }
    }
}

#[test]
fn controls_fit_and_never_overlap_on_desktop() {
    check_layout(1280, 800, DESKTOP);
}

#[test]
fn controls_fit_and_never_overlap_on_a_small_screen() {
    check_layout(400, 300, UiMetrics { btn: 29, gap: 4, margin: 8, font: 10 });
}

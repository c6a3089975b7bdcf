use vstd::prelude::*;

verus! {

/// A single on-screen touch/click button, in screen pixels.
#[derive(Clone, Copy, Debug)]
pub struct Btn {
    pub x: i32,
    pub y: i32,
    pub w: i32,
    pub h: i32,
    pub label: &'static str,
    pub font: i32,
}

/// The position of the pointer, given by the integer bounds of each of its
/// coordinates: `x_floor <= x <= x_ceil` with `x_floor`/`x_ceil` the floor
/// and ceiling of the real coordinate (likewise for `y`). For an integer
/// rectangle edge `e`, `x >= e` iff `x_floor >= e`, and `x <= e` iff
/// `x_ceil <= e`, so hit tests against these bounds are exact.
#[derive(Clone, Copy, Debug, PartialEq, Eq)]
pub struct Cursor {
    pub x_floor: i32,
    pub x_ceil: i32,
    pub y_floor: i32,
    pub y_ceil: i32,
}

/// Integer division rounding toward zero, as Rust's `/` on signed integers.
pub open spec fn div_toward_zero(a: int, d: int) -> int
    recommends
        d > 0,
{
    if a >= 0 {
        a / d
    } else {
        -((-a) / d)
    }
}

/// Integer sizes of the control set after scaling to the screen: button edge
/// length, gap between buttons, screen margin and font size, all in pixels.
#[derive(Clone, Copy, Debug, PartialEq, Eq)]
pub struct UiMetrics {
    pub btn: i32,
    pub gap: i32,
    pub margin: i32,
    pub font: i32,
}

/// Bound on every size and on how far off screen a layout may start, so
/// that no coordinate computed from them overflows `i32`.
pub const LAYOUT_LIMIT: i32 = 0x1000;

impl UiMetrics {
    /// Positive button and gap sizes, non-negative margin and font, none
    /// larger than `LAYOUT_LIMIT`.
    pub open spec fn well_formed(self) -> bool {
        &&& 1 <= self.btn <= LAYOUT_LIMIT
        &&& 1 <= self.gap <= LAYOUT_LIMIT
        &&& 0 <= self.margin <= LAYOUT_LIMIT
        &&& 0 <= self.font <= LAYOUT_LIMIT
    }
}

/// A screen dimension far enough from `i32::MIN` that subtracting a few
/// dozen button sizes from it cannot overflow.
pub open spec fn screen_dim_ok(d: i32) -> bool {
    d >= i32::MIN / 2
}

impl Btn {
    /// The right and bottom edges are representable as `i32`.
    pub open spec fn fits(self) -> bool {
        &&& self.x + self.w <= i32::MAX
        &&& self.y + self.h <= i32::MAX
        &&& self.x + self.w >= i32::MIN
        &&& self.y + self.h >= i32::MIN
    }

    /// The pointer lies in the closed rectangle `[x, x + w] x [y, y + h]`.
    pub open spec fn contains(self, mouse: Cursor) -> bool {
        &&& self.x <= mouse.x_floor
        &&& mouse.x_ceil <= self.x + self.w
        &&& self.y <= mouse.y_floor
        &&& mouse.y_ceil <= self.y + self.h
    }

    pub(crate) fn new(x: i32, y: i32, w: i32, h: i32, label: &'static str, font: i32) -> (b: Btn)
        ensures
            b == btn_at(x as int, y as int, w as int, h as int, label, font as int),
    {
        Btn { x, y, w, h, label, font }
    }

    /// Whether the pointer is on this button (edges included).
    pub fn hit(&self, mouse: Cursor) -> (r: bool)
        requires
            self.fits(),
        ensures
            r == self.contains(mouse),
    {
        mouse.x_floor >= self.x && mouse.x_ceil <= self.x + self.w && mouse.y_floor >= self.y
            && mouse.y_ceil <= self.y + self.h
    }
}

/// The button at `(x, y)` of size `w x h` (the values are taken as `i32`).
pub open spec fn btn_at(x: int, y: int, w: int, h: int, label: &'static str, font: int) -> Btn {
    Btn { x: x as i32, y: y as i32, w: w as i32, h: h as i32, label, font: font as i32 }
}

/// Whether an optional button exists and the pointer is on it.
pub open spec fn opt_contains(btn: Option<Btn>, mouse: Cursor) -> bool {
    match btn {
        Some(b) => b.contains(mouse),
        None => false,
    }
}

/// A missing button, or one whose edges fit in `i32`.
pub open spec fn opt_fits(btn: Option<Btn>) -> bool {
    match btn {
        Some(b) => b.fits(),
        None => true,
    }
}

/// Hit test on a button that may be collapsed away (`None` is never hit).
pub fn opt_hit(btn: &Option<Btn>, mouse: Cursor) -> (r: bool)
    requires
        opt_fits(*btn),
    ensures
        r == opt_contains(*btn, mouse),
{
    match btn {
        Some(b) => b.hit(mouse),
        None => false,
    }
}

/// All on-screen controls: a camera cluster (pan/rotate/zoom, presets,
/// LOOK and CENTER) bottom-left, HIT bottom-right, and help, reset and the
/// collapsible GHOST/AIM buttons top-right.
#[derive(Clone, Copy, Debug)]
pub struct TouchUi {
    pub pan_up: Btn,
    pub pan_down: Btn,
    pub pan_left: Btn,
    pub pan_right: Btn,
    pub rot_left: Btn,
    pub rot_right: Btn,
    pub zoom_in: Btn,
    pub zoom_out: Btn,
    pub reset: Btn,
    pub test: Btn,
    /// `None` while collapsed via `expand_toggle`.
    pub ghost_ball: Option<Btn>,
    pub aim: Option<Btn>,
    pub close_stance: Btn,
    pub stand_stance: Btn,
    pub pot_line: Btn,
    pub expand_toggle: Btn,
    pub view: Btn,
    pub center: Btn,
    pub help: Btn,
}

impl TouchUi {
    /// The buttons that always exist, in a fixed order.
    pub open spec fn fixed_buttons(self) -> Seq<Btn> {
        seq![
            self.pan_up, self.pan_down, self.pan_left, self.pan_right, self.rot_left,
            self.rot_right, self.zoom_in, self.zoom_out, self.reset, self.test,
            self.expand_toggle, self.view, self.center, self.help, self.close_stance,
            self.stand_stance, self.pot_line,
        ]
    }

    /// Every button that is currently present.
    pub open spec fn buttons(self) -> Seq<Btn> {
        let opt = |b: Option<Btn>| if b is Some { seq![b->0] } else { Seq::<Btn>::empty() };
        self.fixed_buttons() + opt(self.ghost_ball) + opt(self.aim)
    }

    /// Every present button's edges fit in `i32`.
    pub open spec fn all_fit(self) -> bool {
        &&& forall|i: int| 0 <= i < self.fixed_buttons().len() ==> #[trigger] self.fixed_buttons()[i].fits()
        &&& opt_fits(self.ghost_ball)
        &&& opt_fits(self.aim)
    }

    /// The pointer is on some present button.
    pub open spec fn any_contains(self, mouse: Cursor) -> bool {
        ||| exists|i: int| 0 <= i < self.fixed_buttons().len() && #[trigger] self.fixed_buttons()[i].contains(mouse)
        ||| opt_contains(self.ghost_ball, mouse)
        ||| opt_contains(self.aim, mouse)
    }

    /// Where each button stands in `fixed_buttons` and in `buttons`.
    pub proof fn lemma_button_order(self)
        ensures
            self.fixed_buttons().len() == 17,
            self.fixed_buttons()[0] == self.pan_up,
            self.fixed_buttons()[1] == self.pan_down,
            self.fixed_buttons()[2] == self.pan_left,
            self.fixed_buttons()[3] == self.pan_right,
            self.fixed_buttons()[4] == self.rot_left,
            self.fixed_buttons()[5] == self.rot_right,
            self.fixed_buttons()[6] == self.zoom_in,
            self.fixed_buttons()[7] == self.zoom_out,
            self.fixed_buttons()[8] == self.reset,
            self.fixed_buttons()[9] == self.test,
            self.fixed_buttons()[10] == self.expand_toggle,
            self.fixed_buttons()[11] == self.view,
            self.fixed_buttons()[12] == self.center,
            self.fixed_buttons()[13] == self.help,
            self.fixed_buttons()[14] == self.close_stance,
            self.fixed_buttons()[15] == self.stand_stance,
            self.fixed_buttons()[16] == self.pot_line,
            self.ghost_ball is None && self.aim is None ==> self.buttons() == self.fixed_buttons(),
            self.ghost_ball is Some && self.aim is Some ==> {
                &&& self.buttons() == self.fixed_buttons().push(self.ghost_ball->0).push(self.aim->0)
                &&& self.buttons()[17] == self.ghost_ball->0
                &&& self.buttons()[18] == self.aim->0
            },
    {
        let f = self.fixed_buttons();
        if self.ghost_ball is None && self.aim is None {
            assert(self.buttons() =~= f);
        }
        if self.ghost_ball is Some && self.aim is Some {
            assert(self.buttons() =~= f.push(self.ghost_ball->0).push(self.aim->0));
        }
    }

    /// Whether the pointer is over any on-screen control.
    pub fn hit_any(&self, mouse: Cursor) -> (r: bool)
        requires
            self.all_fit(),
        ensures
            r == self.any_contains(mouse),
            r <==> {
                ||| self.pan_up.contains(mouse)
                ||| self.pan_down.contains(mouse)
                ||| self.pan_left.contains(mouse)
                ||| self.pan_right.contains(mouse)
                ||| self.rot_left.contains(mouse)
                ||| self.rot_right.contains(mouse)
                ||| self.zoom_in.contains(mouse)
                ||| self.zoom_out.contains(mouse)
                ||| self.reset.contains(mouse)
                ||| self.test.contains(mouse)
                ||| self.expand_toggle.contains(mouse)
                ||| self.view.contains(mouse)
                ||| self.center.contains(mouse)
                ||| self.help.contains(mouse)
                ||| self.close_stance.contains(mouse)
                ||| self.stand_stance.contains(mouse)
                ||| self.pot_line.contains(mouse)
                ||| (self.ghost_ball matches Some(g) && g.contains(mouse))
                ||| (self.aim matches Some(a) && a.contains(mouse))
            },
    {
        proof {
            self.lemma_button_order();
            hit_any_means_on_some_button(*self, mouse);
        }
        let fixed = [
            &self.pan_up, &self.pan_down, &self.pan_left, &self.pan_right, &self.rot_left,
            &self.rot_right, &self.zoom_in, &self.zoom_out, &self.reset, &self.test,
            &self.expand_toggle, &self.view, &self.center, &self.help, &self.close_stance,
            &self.stand_stance, &self.pot_line,
        ];
        let mut i: usize = 0;
        while i < 17
            invariant
                i <= 17,
                fixed@.len() == 17,
                forall|k: int| 0 <= k < 17 ==> *#[trigger] fixed@[k] == self.fixed_buttons()[k],
                self.all_fit(),
                forall|k: int| 0 <= k < i ==> !#[trigger] self.fixed_buttons()[k].contains(mouse),
            decreases 17 - i,
        {
            assert(self.fixed_buttons()[i as int].fits());
            if fixed[i].hit(mouse) {
                return true;
            }
            i += 1;
        }
        opt_hit(&self.ghost_ball, mouse) || opt_hit(&self.aim, mouse)
    }
}

/// The control layout for a `screen_w x screen_h` screen with sizes `m`:
/// bottom-left a 4x2 grid (Q ^ E + / < v > -) with a square CENTER button
/// to its right, a LOOK bar spanning both above it and the three camera
/// presets (CLOSE, STAND, LINE) above that; bottom-right the big square HIT
/// button; top-right help, the expand/collapse toggle below it, reset to
/// help's left (two squares wide) and, while expanded, GHOST and AIM below
/// reset.
pub open spec fn touch_ui_layout(
    screen_w: int,
    screen_h: int,
    m: UiMetrics,
    reset_label: &'static str,
    ghost_aim_visible: bool,
) -> TouchUi {
    let (btn, gap, margin, font) = (m.btn as int, m.gap as int, m.margin as int, m.font as int);
    let step = btn + gap;
    let row_bottom_y = screen_h - margin - btn;
    let row_top_y = row_bottom_y - step;
    let look_y = row_top_y - step;
    let center_w = 2 * btn + gap;
    let center_x = margin + 3 * step + step;
    let look_w = (center_x + center_w) - margin;
    let preset_y = look_y - step;
    let preset_w = (look_w - 2 * gap) / 3;
    let hit_w = 3 * btn + 2 * gap;
    let help_x = screen_w - margin - btn;
    let reset_w = 2 * btn + gap;
    let reset_x = help_x - gap - reset_w;
    TouchUi {
        rot_left: btn_at(margin, row_top_y, btn, btn, "Q", font),
        pan_up: btn_at(margin + step, row_top_y, btn, btn, "^", font),
        rot_right: btn_at(margin + 2 * step, row_top_y, btn, btn, "E", font),
        zoom_in: btn_at(margin + 3 * step, row_top_y, btn, btn, "+", font),
        pan_left: btn_at(margin, row_bottom_y, btn, btn, "<", font),
        pan_down: btn_at(margin + step, row_bottom_y, btn, btn, "v", font),
        pan_right: btn_at(margin + 2 * step, row_bottom_y, btn, btn, ">", font),
        zoom_out: btn_at(margin + 3 * step, row_bottom_y, btn, btn, "-", font),
        center: btn_at(center_x, row_top_y, center_w, center_w, "CENTER", font),
        view: btn_at(margin, look_y, look_w, btn, "LOOK", font),
        close_stance: btn_at(margin, preset_y, preset_w, btn, "CLOSE", font),
        stand_stance: btn_at(margin + preset_w + gap, preset_y, preset_w, btn, "STAND", font),
        pot_line: btn_at(margin + 2 * (preset_w + gap), preset_y, preset_w, btn, "LINE", font),
        test: btn_at(screen_w - margin - hit_w, screen_h - margin - hit_w, hit_w, hit_w, "HIT", font),
        help: btn_at(help_x, margin, btn, btn, "?", font),
        expand_toggle: btn_at(help_x, margin + step, btn, btn, if ghost_aim_visible { ">>" } else { "<<" }, font),
        reset: btn_at(reset_x, margin, reset_w, btn, reset_label, font),
        ghost_ball: if ghost_aim_visible {
            Some(btn_at(reset_x, margin + step, reset_w, btn, "GHOST", font))
        } else {
            None
        },
        aim: if ghost_aim_visible {
            Some(btn_at(reset_x, margin + 2 * step, reset_w, btn, "AIM", font))
        } else {
            None
        },
    }
}

/// Lays out every on-screen control for the current screen size, with the
/// already-scaled sizes `m`. `reset_label` is what the reset button will do
/// right now ("CLEAR"/"NEXT"); GHOST and AIM exist only while
/// `ghost_aim_visible`, and the expand toggle reads ">>" then, "<<" when
/// collapsed.
pub fn touch_ui(
    screen_w: i32,
    screen_h: i32,
    m: UiMetrics,
    reset_label: &'static str,
    ghost_aim_visible: bool,
) -> (ui: TouchUi)
    requires
        m.well_formed(),
        screen_dim_ok(screen_w),
        screen_dim_ok(screen_h),
    ensures
        ui == touch_ui_layout(screen_w as int, screen_h as int, m, reset_label, ghost_aim_visible),
        ui.all_fit(),
{
    let btn = m.btn;
    let gap = m.gap;
    let margin = m.margin;
    let font = m.font;
    let step = btn + gap;

    let grid_x = margin;
    let row_bottom_y = screen_h - margin - btn;
    let row_top_y = row_bottom_y - step;
    let look_y = row_top_y - step;

    let rot_left = Btn::new(grid_x, row_top_y, btn, btn, "Q", font);
    let pan_up = Btn::new(grid_x + step, row_top_y, btn, btn, "^", font);
    let rot_right = Btn::new(grid_x + 2 * step, row_top_y, btn, btn, "E", font);
    let zoom_in = Btn::new(grid_x + 3 * step, row_top_y, btn, btn, "+", font);

    let pan_left = Btn::new(grid_x, row_bottom_y, btn, btn, "<", font);
    let pan_down = Btn::new(grid_x + step, row_bottom_y, btn, btn, "v", font);
    let pan_right = Btn::new(grid_x + 2 * step, row_bottom_y, btn, btn, ">", font);
    let zoom_out = Btn::new(grid_x + 3 * step, row_bottom_y, btn, btn, "-", font);

    let center_w = 2 * btn + gap;
    let center_x = grid_x + 3 * step + step;
    let center = Btn::new(center_x, row_top_y, center_w, center_w, "CENTER", font);

    let look_w = (center_x + center_w) - grid_x;
    let view = Btn::new(grid_x, look_y, look_w, btn, "LOOK", font);

    let preset_y = look_y - step;
    let preset_w = (look_w - 2 * gap) / 3;
    let close_stance = Btn::new(grid_x, preset_y, preset_w, btn, "CLOSE", font);
    let stand_stance = Btn::new(grid_x + preset_w + gap, preset_y, preset_w, btn, "STAND", font);
    let pot_line = Btn::new(grid_x + 2 * (preset_w + gap), preset_y, preset_w, btn, "LINE", font);

    let hit_w = 3 * btn + 2 * gap;
    let test = Btn::new(screen_w - margin - hit_w, screen_h - margin - hit_w, hit_w, hit_w, "HIT", font);

    let help = Btn::new(screen_w - margin - btn, margin, btn, btn, "?", font);
    let expand_label = if ghost_aim_visible { ">>" } else { "<<" };
    let expand_toggle = Btn::new(help.x, margin + step, btn, btn, expand_label, font);
    let reset_w = 2 * btn + gap;
    let reset_x = help.x - gap - reset_w;
    let reset = Btn::new(reset_x, margin, reset_w, btn, reset_label, font);
    let (ghost_ball, aim) = if ghost_aim_visible {
        (
            Some(Btn::new(reset_x, margin + step, reset_w, btn, "GHOST", font)),
            Some(Btn::new(reset_x, margin + 2 * step, reset_w, btn, "AIM", font)),
        )
    } else {
        (None, None)
    };

    let ui = TouchUi {
        pan_up,
        pan_down,
        pan_left,
        pan_right,
        rot_left,
        rot_right,
        zoom_in,
        zoom_out,
        reset,
        test,
        ghost_ball,
        aim,
        close_stance,
        stand_stance,
        pot_line,
        expand_toggle,
        view,
        center,
        help,
    };
    proof {
        ui.lemma_button_order();
        let f = ui.fixed_buttons();
        assert forall|i: int| 0 <= i < f.len() implies #[trigger] f[i].fits() by {}
    }
    ui
}

/// The pause menu: CONTINUE always, QUIT only where the program can close
/// itself; `title_y` is where the "PAUSED" title goes.
#[derive(Clone, Copy, Debug)]
pub struct MenuUi {
    pub continue_btn: Btn,
    pub quit_btn: Option<Btn>,
    pub title_y: i32,
}

/// Menu button width, height, vertical gap and font size.
pub const MENU_BTN_W: i32 = 260;
pub const MENU_BTN_H: i32 = 64;
pub const MENU_GAP: i32 = 20;
pub const MENU_FONT: i32 = 22;

/// The pause menu's layout: its buttons stacked and centered on screen,
/// the title 60 px above the stack.
pub open spec fn menu_layout(screen_w: int, screen_h: int, has_quit: bool) -> MenuUi {
    let rows: int = if has_quit { 2 } else { 1 };
    let stack_h = rows * MENU_BTN_H + (rows - 1) * MENU_GAP;
    let x = div_toward_zero(screen_w, 2) - MENU_BTN_W / 2;
    let start_y = div_toward_zero(screen_h, 2) - div_toward_zero(stack_h, 2);
    MenuUi {
        continue_btn: btn_at(x, start_y, MENU_BTN_W as int, MENU_BTN_H as int, "CONTINUE", MENU_FONT as int),
        quit_btn: if has_quit {
            Some(btn_at(x, start_y + MENU_BTN_H + MENU_GAP, MENU_BTN_W as int, MENU_BTN_H as int, "QUIT", MENU_FONT as int))
        } else {
            None
        },
        title_y: (start_y - 60) as i32,
    }
}

/// Lays out the pause menu for the current screen size. `has_quit` says
/// whether this build can close its own window (not in a browser tab).
pub fn menu_ui(screen_w: i32, screen_h: i32, has_quit: bool) -> (menu: MenuUi)
    ensures
        menu == menu_layout(screen_w as int, screen_h as int, has_quit),
        menu.continue_btn.fits(),
        opt_fits(menu.quit_btn),
{
    let btn_w = MENU_BTN_W;
    let btn_h = MENU_BTN_H;
    let gap = MENU_GAP;
    let font = MENU_FONT;

    let rows: i32 = if has_quit { 2 } else { 1 };
    let stack_h = rows * btn_h + (rows - 1) * gap;
    let x = screen_w / 2 - btn_w / 2;
    let start_y = screen_h / 2 - stack_h / 2;

    let continue_btn = Btn::new(x, start_y, btn_w, btn_h, "CONTINUE", font);
    let quit_btn = if has_quit {
        Some(Btn::new(x, start_y + btn_h + gap, btn_w, btn_h, "QUIT", font))
    } else {
        None
    };

    MenuUi { continue_btn, quit_btn, title_y: start_y - 60 }
}

impl Cursor {
    /// Each lower bound is at most its upper bound, at most one apart.
    pub open spec fn well_formed(self) -> bool {
        &&& self.x_floor <= self.x_ceil <= self.x_floor + 1
        &&& self.y_floor <= self.y_ceil <= self.y_floor + 1
    }
}

/// The closed rectangles of `a` and `b` share no point.
pub open spec fn disjoint(a: Btn, b: Btn) -> bool {
    ||| a.x + a.w < b.x
    ||| b.x + b.w < a.x
    ||| a.y + a.h < b.y
    ||| b.y + b.h < a.y
}

/// A pointer is never on two disjoint buttons at once.
pub proof fn disjoint_buttons_share_no_hit(a: Btn, b: Btn, mouse: Cursor)
    requires
        mouse.well_formed(),
        disjoint(a, b),
    ensures
        !(a.contains(mouse) && b.contains(mouse)),
{
}

/// On a screen at least as large as the control set (the bottom-left
/// cluster and HIT side by side across the width; the top-right column and
/// the bottom-left cluster stacked down the height), no two controls
/// overlap, so no tap can land on two of them.
pub proof fn touch_ui_controls_never_overlap(
    screen_w: i32,
    screen_h: i32,
    m: UiMetrics,
    reset_label: &'static str,
    ghost_aim_visible: bool,
)
    requires
        m.well_formed(),
        screen_dim_ok(screen_w),
        screen_dim_ok(screen_h),
        screen_w > 2 * m.margin + 9 * m.btn + 7 * m.gap,
        screen_h > 2 * m.margin + 7 * m.btn + 5 * m.gap,
    ensures
        ({
            let b = touch_ui_layout(screen_w as int, screen_h as int, m, reset_label, ghost_aim_visible).buttons();
            forall|i: int, j: int| 0 <= i < j < b.len() ==> disjoint(#[trigger] b[i], #[trigger] b[j])
        }),
{
    let ui = touch_ui_layout(screen_w as int, screen_h as int, m, reset_label, ghost_aim_visible);
    let b = ui.buttons();
    let (btn, gap) = (m.btn as int, m.gap as int);
    assert((6 * btn + 3 * gap) / 3 == 2 * btn + gap);
    ui.lemma_button_order();
    assert forall|i: int, j: int| 0 <= i < j < b.len() implies disjoint(#[trigger] b[i], #[trigger] b[j]) by {}
}

/// On a screen at least as large as the control set, every control lies
/// within the screen.
pub proof fn touch_ui_controls_fit_on_screen(
    screen_w: i32,
    screen_h: i32,
    m: UiMetrics,
    reset_label: &'static str,
    ghost_aim_visible: bool,
)
    requires
        m.well_formed(),
        screen_dim_ok(screen_w),
        screen_dim_ok(screen_h),
        screen_w > 2 * m.margin + 9 * m.btn + 7 * m.gap,
        screen_h > 2 * m.margin + 7 * m.btn + 5 * m.gap,
    ensures
        ({
            let b = touch_ui_layout(screen_w as int, screen_h as int, m, reset_label, ghost_aim_visible).buttons();
            forall|i: int| 0 <= i < b.len() ==> {
                &&& 0 <= #[trigger] b[i].x && b[i].x + b[i].w <= screen_w
                &&& 0 <= b[i].y && b[i].y + b[i].h <= screen_h
            }
        }),
{
    let ui = touch_ui_layout(screen_w as int, screen_h as int, m, reset_label, ghost_aim_visible);
    let b = ui.buttons();
    let (btn, gap) = (m.btn as int, m.gap as int);
    assert((6 * btn + 3 * gap) / 3 == 2 * btn + gap);
    ui.lemma_button_order();
    assert forall|i: int| 0 <= i < b.len() implies {
        &&& 0 <= #[trigger] b[i].x && b[i].x + b[i].w <= screen_w
        &&& 0 <= b[i].y && b[i].y + b[i].h <= screen_h
    } by {}
}

/// The menu's buttons are horizontally centered on screen and, when QUIT
/// exists, it sits below CONTINUE without touching it.
pub proof fn menu_buttons_centered_and_apart(screen_w: i32, screen_h: i32, has_quit: bool)
    ensures
        ({
            let menu = menu_layout(screen_w as int, screen_h as int, has_quit);
            &&& menu.continue_btn.x == div_toward_zero(screen_w as int, 2) - MENU_BTN_W / 2
            &&& menu.quit_btn matches Some(q) ==> {
                &&& q.x == menu.continue_btn.x
                &&& disjoint(menu.continue_btn, q)
                &&& menu.continue_btn.y < q.y
            }
        }),
{
}

/// The pointer is over the controls exactly when it is on one of the
/// present buttons: any of the seventeen fixed ones, GHOST while it exists,
/// or AIM while it exists.
pub proof fn hit_any_means_on_some_button(ui: TouchUi, mouse: Cursor)
    ensures
        ui.any_contains(mouse) <==> {
            ||| ui.pan_up.contains(mouse)
            ||| ui.pan_down.contains(mouse)
            ||| ui.pan_left.contains(mouse)
            ||| ui.pan_right.contains(mouse)
            ||| ui.rot_left.contains(mouse)
            ||| ui.rot_right.contains(mouse)
            ||| ui.zoom_in.contains(mouse)
            ||| ui.zoom_out.contains(mouse)
            ||| ui.reset.contains(mouse)
            ||| ui.test.contains(mouse)
            ||| ui.expand_toggle.contains(mouse)
            ||| ui.view.contains(mouse)
            ||| ui.center.contains(mouse)
            ||| ui.help.contains(mouse)
            ||| ui.close_stance.contains(mouse)
            ||| ui.stand_stance.contains(mouse)
            ||| ui.pot_line.contains(mouse)
            ||| (ui.ghost_ball matches Some(g) && g.contains(mouse))
            ||| (ui.aim matches Some(a) && a.contains(mouse))
        },
        ui.any_contains(mouse) <==> exists|i: int| 0 <= i < ui.buttons().len() && #[trigger] ui.buttons()[i].contains(mouse),
{
    ui.lemma_button_order();
    let f = ui.fixed_buttons();
    let b = ui.buttons();
    if exists|i: int| 0 <= i < f.len() && #[trigger] f[i].contains(mouse) {
        let i = choose|i: int| 0 <= i < f.len() && #[trigger] f[i].contains(mouse);
        assert(b[i] == f[i]);
    }
    let opt = |o: Option<Btn>| if o is Some { seq![o->0] } else { Seq::<Btn>::empty() };
    assert(b == f + opt(ui.ghost_ball) + opt(ui.aim));
    if let Some(g) = ui.ghost_ball {
        assert(b[f.len() as int] == g);
    }
    if let Some(a) = ui.aim {
        let k = if ui.ghost_ball is Some { f.len() as int + 1 } else { f.len() as int };
        assert(b[k] == a);
    }
    if exists|i: int| 0 <= i < b.len() && #[trigger] b[i].contains(mouse) {
        let i = choose|i: int| 0 <= i < b.len() && #[trigger] b[i].contains(mouse);
        if i < 17 {
            assert(b[i] == f[i]);
        } else if i == 17 && ui.ghost_ball is Some {
            assert(b[i] == ui.ghost_ball->0);
        } else {
            assert(ui.aim is Some && b[i] == ui.aim->0);
        }
    }
}

/// A pointer resting on an integer pixel `(x, y)` is on a button exactly
/// when `x` lies between its left and right edges and `y` between its top
/// and bottom edges, edges included.
pub proof fn hit_is_the_closed_rectangle(b: Btn, x: i32, y: i32)
    ensures
        b.contains(Cursor { x_floor: x, x_ceil: x, y_floor: y, y_ceil: y }) <==> (b.x <= x <= b.x + b.w
            && b.y <= y <= b.y + b.h),
{
}

} // verus!

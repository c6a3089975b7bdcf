use vstd::prelude::*;

verus! {

/// The camera bookkeeping of a session: the live camera, whether view mode
/// is on, the aiming camera saved when view mode was entered, the free-roam
/// camera remembered when it was left, and the aim that stays frozen while
/// inspecting. `C` is the camera type; it is only stored and handed back.
pub struct Cameras<C> {
    pub camera: C,
    pub view_mode: bool,
    pub saved_camera: Option<C>,
    pub last_view_camera: Option<C>,
    pub frozen_aim_camera: C,
}

impl<C> Cameras<C> {
    /// An aiming camera is saved exactly while view mode is on.
    pub open spec fn wf(self) -> bool {
        self.view_mode == (self.saved_camera is Some)
    }

    /// The camera the cue aims with: frozen while in view mode.
    pub open spec fn aim(self) -> C {
        if self.view_mode {
            self.frozen_aim_camera
        } else {
            self.camera
        }
    }

    /// The same bookkeeping with the live camera replaced.
    pub open spec fn with_camera(self, camera: C) -> Self {
        Cameras { camera, ..self }
    }

    /// Leaving view mode: the free-roam camera is remembered, and the saved
    /// aiming camera comes back.
    pub open spec fn exited_view(self) -> Self {
        Cameras {
            camera: match self.saved_camera {
                Some(saved) => saved,
                None => self.camera,
            },
            view_mode: false,
            saved_camera: None,
            last_view_camera: Some(self.camera),
            frozen_aim_camera: self.frozen_aim_camera,
        }
    }

    /// Entering view mode. The first time in a layout the aiming camera is
    /// first re-centered on the cue ball (`recentered` is that camera); the
    /// aim is frozen and saved, and a free-roam camera remembered from an
    /// earlier visit is resumed.
    pub open spec fn entered_view(self, recentered: C) -> Self {
        let aiming = if self.last_view_camera is None { recentered } else { self.camera };
        Cameras {
            camera: match self.last_view_camera {
                Some(resume) => resume,
                None => aiming,
            },
            view_mode: true,
            saved_camera: Some(aiming),
            last_view_camera: self.last_view_camera,
            frozen_aim_camera: aiming,
        }
    }

    /// The view-mode toggle (V / LOOK).
    pub open spec fn toggled_view(self, recentered: C) -> Self {
        if self.view_mode {
            self.exited_view()
        } else {
            self.entered_view(recentered)
        }
    }

    /// Camera presets 1 and 2 first leave view mode exactly as V would.
    pub open spec fn left_for_stance(self) -> Self {
        if self.view_mode {
            self.exited_view()
        } else {
            self
        }
    }

    /// Camera preset 3 enters view mode as V would (without resuming an
    /// earlier free-roam camera, since it is replaced at once) and then
    /// looks down the potting line from `pot_line`.
    pub open spec fn at_pot_line(self, recentered: C, pot_line: C) -> Self {
        let entered = if self.view_mode { self } else { self.entered_view(recentered) };
        entered.with_camera(pot_line)
    }

    /// A new layout: aiming from `camera`, out of view mode, nothing saved
    /// or remembered.
    pub open spec fn restarted(self, camera: C) -> Self {
        Cameras {
            camera,
            view_mode: false,
            saved_camera: None,
            last_view_camera: None,
            frozen_aim_camera: self.frozen_aim_camera,
        }
    }
}

impl<C: Copy> Cameras<C> {
    fn copy(&self) -> (r: Self)
        ensures
            r == *self,
    {
        Cameras {
            camera: self.camera,
            view_mode: self.view_mode,
            saved_camera: self.saved_camera,
            last_view_camera: self.last_view_camera,
            frozen_aim_camera: self.frozen_aim_camera,
        }
    }

    fn exit_view(&self) -> (r: Self)
        ensures
            r == self.exited_view(),
    {
        let camera = match self.saved_camera {
            Some(saved) => saved,
            None => self.camera,
        };
        Cameras {
            camera,
            view_mode: false,
            saved_camera: None,
            last_view_camera: Some(self.camera),
            frozen_aim_camera: self.frozen_aim_camera,
        }
    }

    fn enter_view(&self, recentered: C) -> (r: Self)
        ensures
            r == self.entered_view(recentered),
    {
        let aiming = if self.last_view_camera.is_none() { recentered } else { self.camera };
        let camera = match self.last_view_camera {
            Some(resume) => resume,
            None => aiming,
        };
        Cameras {
            camera,
            view_mode: true,
            saved_camera: Some(aiming),
            last_view_camera: self.last_view_camera,
            frozen_aim_camera: aiming,
        }
    }
}

/// What `R` / NEXT-CLEAR did.
#[derive(Clone, Copy, Debug, PartialEq, Eq)]
pub enum ResetOutcome {
    /// A tested shot was on screen; it was cleared and nothing else changed.
    ClearedShotTest,
    /// No tested shot was showing: the caller rolls a new layout and passes
    /// it, with its aiming camera, to `start_layout`.
    NewLayoutNeeded,
}

/// The abstract state of a session: camera bookkeeping, the ball layout
/// `L`, a frozen shot-test result `S` (if any) and the display toggles.
pub struct GameModel<C, L, S> {
    pub cameras: Cameras<C>,
    pub layout: L,
    pub shot_test: Option<S>,
    pub show_ghost_ball: bool,
    pub show_aim_line: bool,
    pub help_visible: bool,
    pub ghost_aim_visible: bool,
    pub show_collision_debug: bool,
    pub menu_visible: bool,
    pub quit_requested: bool,
}

impl<C, L, S> GameModel<C, L, S> {
    pub open spec fn wf(self) -> bool {
        self.cameras.wf()
    }

    /// The same state with other camera bookkeeping.
    pub open spec fn with_cameras(self, cameras: Cameras<C>) -> Self {
        GameModel { cameras, ..self }
    }

    /// Shift+` flips the collision-debug overlay; `?`/the help button flips
    /// the help popup, and any other tap while it is open closes it.
    pub open spec fn after_global_toggles(self, debug_toggle: bool, help_toggle: bool, tap: bool) -> Self {
        GameModel {
            show_collision_debug: if debug_toggle { !self.show_collision_debug } else { self.show_collision_debug },
            help_visible: if help_toggle {
                !self.help_visible
            } else if self.help_visible && tap {
                false
            } else {
                self.help_visible
            },
            ..self
        }
    }

    /// Esc flips the pause menu; while it is open, CONTINUE closes it and
    /// QUIT asks the program to end.
    pub open spec fn after_menu(self, esc: bool, continue_tap: bool, quit_tap: bool) -> Self {
        let visible = if esc { !self.menu_visible } else { self.menu_visible };
        GameModel {
            menu_visible: if self.menu_visible && !esc && continue_tap { false } else { visible },
            quit_requested: self.quit_requested || (self.menu_visible && !esc && quit_tap),
            ..self
        }
    }

    /// R / NEXT-CLEAR: a tested shot on screen is cleared first; otherwise
    /// nothing changes here (a new layout follows via `restarted`).
    pub open spec fn after_reset(self) -> (Self, ResetOutcome) {
        if self.shot_test is Some {
            (GameModel { shot_test: None, ..self }, ResetOutcome::ClearedShotTest)
        } else {
            (self, ResetOutcome::NewLayoutNeeded)
        }
    }

    /// A new layout, aimed from `camera`.
    pub open spec fn restarted(self, layout: L, camera: C) -> Self {
        GameModel { layout, cameras: self.cameras.restarted(camera), ..self }
    }
}

/// All per-session state the input handling mutates: cameras and view
/// mode, the current layout, a frozen shot-test result and the toggles.
pub struct GameState<C, L, S> {
    cameras: Cameras<C>,
    layout: L,
    shot_test: Option<S>,
    show_ghost_ball: bool,
    show_aim_line: bool,
    help_visible: bool,
    ghost_aim_visible: bool,
    show_collision_debug: bool,
    menu_visible: bool,
    quit_requested: bool,
}

impl<C, L, S> View for GameState<C, L, S> {
    type V = GameModel<C, L, S>;

    closed spec fn view(&self) -> GameModel<C, L, S> {
        GameModel {
            cameras: self.cameras,
            layout: self.layout,
            shot_test: self.shot_test,
            show_ghost_ball: self.show_ghost_ball,
            show_aim_line: self.show_aim_line,
            help_visible: self.help_visible,
            ghost_aim_visible: self.ghost_aim_visible,
            show_collision_debug: self.show_collision_debug,
            menu_visible: self.menu_visible,
            quit_requested: self.quit_requested,
        }
    }
}

impl<C, L, S> GameState<C, L, S> {
    #[verifier::type_invariant]
    spec fn inv(self) -> bool {
        self.cameras.wf()
    }
}

impl<C: Copy, L, S> GameState<C, L, S> {
    /// A fresh session on `layout`, aiming from `camera`: ghost ball shown,
    /// aim line hidden, GHOST/AIM buttons expanded, everything else off.
    pub fn new(camera: C, layout: L) -> (g: Self)
        ensures
            g@ == (GameModel::<C, L, S> {
                cameras: Cameras {
                    camera,
                    view_mode: false,
                    saved_camera: None,
                    last_view_camera: None,
                    frozen_aim_camera: camera,
                },
                layout,
                shot_test: None,
                show_ghost_ball: true,
                show_aim_line: false,
                help_visible: false,
                ghost_aim_visible: true,
                show_collision_debug: false,
                menu_visible: false,
                quit_requested: false,
            }),
    {
        GameState {
            cameras: Cameras {
                camera,
                view_mode: false,
                saved_camera: None,
                last_view_camera: None,
                frozen_aim_camera: camera,
            },
            layout,
            shot_test: None,
            show_ghost_ball: true,
            show_aim_line: false,
            help_visible: false,
            ghost_aim_visible: true,
            show_collision_debug: false,
            menu_visible: false,
            quit_requested: false,
        }
    }

    /// The live camera.
    pub fn camera(&self) -> (c: C)
        ensures
            c == self@.cameras.camera,
    {
        self.cameras.camera
    }

    /// The camera the cue aims with: while in view mode, the aim stays
    /// frozen at what it was when view mode was entered.
    pub fn aim_camera(&self) -> (c: C)
        ensures
            c == self@.cameras.aim(),
    {
        if self.cameras.view_mode {
            self.cameras.frozen_aim_camera
        } else {
            self.cameras.camera
        }
    }

    /// Moves the live camera (panning, orbiting, zooming, stances).
    pub fn set_camera(&mut self, camera: C)
        ensures
            final(self)@ == old(self)@.with_cameras(old(self)@.cameras.with_camera(camera)),
            final(self)@.wf(),
    {
        proof {
            use_type_invariant(&*self);
        }
        self.cameras.camera = camera;
    }

    pub fn layout(&self) -> (l: &L)
        ensures
            *l == self@.layout,
    {
        &self.layout
    }

    pub fn shot_test(&self) -> (t: &Option<S>)
        ensures
            *t == self@.shot_test,
    {
        &self.shot_test
    }

    pub fn view_mode(&self) -> (b: bool)
        ensures
            b == self@.cameras.view_mode,
    {
        self.cameras.view_mode
    }

    pub fn show_ghost_ball(&self) -> (b: bool)
        ensures
            b == self@.show_ghost_ball,
    {
        self.show_ghost_ball
    }

    pub fn show_aim_line(&self) -> (b: bool)
        ensures
            b == self@.show_aim_line,
    {
        self.show_aim_line
    }

    pub fn help_visible(&self) -> (b: bool)
        ensures
            b == self@.help_visible,
    {
        self.help_visible
    }

    pub fn ghost_aim_visible(&self) -> (b: bool)
        ensures
            b == self@.ghost_aim_visible,
    {
        self.ghost_aim_visible
    }

    pub fn show_collision_debug(&self) -> (b: bool)
        ensures
            b == self@.show_collision_debug,
    {
        self.show_collision_debug
    }

    pub fn menu_visible(&self) -> (b: bool)
        ensures
            b == self@.menu_visible,
    {
        self.menu_visible
    }

    pub fn quit_requested(&self) -> (b: bool)
        ensures
            b == self@.quit_requested,
    {
        self.quit_requested
    }

    /// `debug_toggle`: Shift+` was pressed; `help_toggle`: `?` was pressed
    /// or the help button tapped; `tap`: any tap this frame.
    pub fn handle_global_toggles(&mut self, debug_toggle: bool, help_toggle: bool, tap: bool)
        ensures
            final(self)@ == old(self)@.after_global_toggles(debug_toggle, help_toggle, tap),
            final(self)@.show_collision_debug == (debug_toggle != old(self)@.show_collision_debug),
            final(self)@.help_visible == (if help_toggle { !old(self)@.help_visible } else { old(self)@.help_visible && !tap }),
            final(self)@.menu_visible == old(self)@.menu_visible,
            final(self)@.quit_requested == old(self)@.quit_requested,
            final(self)@.cameras == old(self)@.cameras,
            final(self)@.layout == old(self)@.layout,
            final(self)@.shot_test == old(self)@.shot_test,
    {
        proof {
            use_type_invariant(&*self);
        }
        if debug_toggle {
            self.show_collision_debug = !self.show_collision_debug;
        }
        if help_toggle {
            self.help_visible = !self.help_visible;
        } else if self.help_visible && tap {
            self.help_visible = false;
        }
    }

    /// `esc`: Esc pressed; `continue_tap`/`quit_tap`: the menu's CONTINUE or
    /// QUIT button tapped.
    pub fn handle_menu(&mut self, esc: bool, continue_tap: bool, quit_tap: bool)
        ensures
            final(self)@ == old(self)@.after_menu(esc, continue_tap, quit_tap),
            final(self)@.menu_visible == (if esc { !old(self)@.menu_visible } else { old(self)@.menu_visible && !continue_tap }),
            final(self)@.quit_requested == (old(self)@.quit_requested || (old(self)@.menu_visible && !esc && quit_tap)),
            final(self)@.show_collision_debug == old(self)@.show_collision_debug,
            final(self)@.help_visible == old(self)@.help_visible,
            final(self)@.cameras == old(self)@.cameras,
            final(self)@.layout == old(self)@.layout,
            final(self)@.shot_test == old(self)@.shot_test,
    {
        proof {
            use_type_invariant(&*self);
        }
        if esc {
            self.menu_visible = !self.menu_visible;
        } else if self.menu_visible {
            if quit_tap {
                self.quit_requested = true;
            }
            if continue_tap {
                self.menu_visible = false;
            }
        }
    }

    /// Space / HIT: freezes a traced shot until the next test or reset.
    pub fn record_shot_test(&mut self, test: S)
        ensures
            final(self)@ == (GameModel { shot_test: Some(test), ..old(self)@ }),
    {
        proof {
            use_type_invariant(&*self);
        }
        self.shot_test = Some(test);
    }

    /// `>>`/`<<`: shows or hides the GHOST/AIM buttons.
    pub fn toggle_ghost_aim_visible(&mut self)
        ensures
            final(self)@ == (GameModel { ghost_aim_visible: !old(self)@.ghost_aim_visible, ..old(self)@ }),
    {
        proof {
            use_type_invariant(&*self);
        }
        self.ghost_aim_visible = !self.ghost_aim_visible;
    }

    /// G / GHOST.
    pub fn toggle_ghost_ball(&mut self)
        ensures
            final(self)@ == (GameModel { show_ghost_ball: !old(self)@.show_ghost_ball, ..old(self)@ }),
    {
        proof {
            use_type_invariant(&*self);
        }
        self.show_ghost_ball = !self.show_ghost_ball;
    }

    /// H / AIM.
    pub fn toggle_aim_line(&mut self)
        ensures
            final(self)@ == (GameModel { show_aim_line: !old(self)@.show_aim_line, ..old(self)@ }),
    {
        proof {
            use_type_invariant(&*self);
        }
        self.show_aim_line = !self.show_aim_line;
    }

    /// R / NEXT-CLEAR.
    pub fn press_reset(&mut self) -> (r: ResetOutcome)
        ensures
            (final(self)@, r) == old(self)@.after_reset(),
    {
        proof {
            use_type_invariant(&*self);
        }
        if self.shot_test.is_some() {
            self.shot_test = None;
            ResetOutcome::ClearedShotTest
        } else {
            ResetOutcome::NewLayoutNeeded
        }
    }

    /// Installs a freshly rolled layout, aimed from `camera`, leaving view
    /// mode and forgetting the saved and remembered cameras.
    pub fn start_layout(&mut self, layout: L, camera: C)
        ensures
            final(self)@ == old(self)@.restarted(layout, camera),
            final(self)@.wf(),
    {
        proof {
            use_type_invariant(&*self);
        }
        self.layout = layout;
        let new_cameras = Cameras {
            camera,
            view_mode: false,
            saved_camera: None,
            last_view_camera: None,
            frozen_aim_camera: self.cameras.frozen_aim_camera,
        };
        self.cameras = new_cameras;
    }

    /// V / LOOK. `recentered` is the live camera with its orbit pivot moved
    /// onto the cue ball, used when view mode is entered for the first time
    /// in a layout.
    pub fn toggle_view_mode(&mut self, recentered: C)
        ensures
            final(self)@ == old(self)@.with_cameras(old(self)@.cameras.toggled_view(recentered)),
            final(self)@.wf(),
            final(self)@.cameras.view_mode == !old(self)@.cameras.view_mode,
            old(self)@.cameras.view_mode ==> {
                &&& old(self)@.cameras.saved_camera matches Some(saved) && final(self)@.cameras.camera == saved
                &&& final(self)@.cameras.last_view_camera == Some(old(self)@.cameras.camera)
                &&& final(self)@.cameras.saved_camera is None
            },
            !old(self)@.cameras.view_mode ==> {
                &&& final(self)@.cameras.saved_camera == Some(final(self)@.cameras.frozen_aim_camera)
                &&& final(self)@.cameras.last_view_camera == old(self)@.cameras.last_view_camera
                &&& (old(self)@.cameras.last_view_camera matches Some(resume) ==> final(self)@.cameras.camera == resume
                    && final(self)@.cameras.frozen_aim_camera == old(self)@.cameras.camera)
                &&& (old(self)@.cameras.last_view_camera is None ==> final(self)@.cameras.camera == recentered
                    && final(self)@.cameras.frozen_aim_camera == recentered)
            },
            final(self)@.layout == old(self)@.layout,
            final(self)@.shot_test == old(self)@.shot_test,
    {
        proof {
            use_type_invariant(&*self);
        }
        let new_cameras = if self.cameras.view_mode {
            self.cameras.exit_view()
        } else {
            self.cameras.enter_view(recentered)
        };
        self.cameras = new_cameras;
    }

    /// Camera presets 1 and 2: leave view mode as V would; the caller then
    /// moves the aiming camera into the stance with `set_camera`.
    pub fn leave_view_mode_for_stance(&mut self)
        ensures
            final(self)@ == old(self)@.with_cameras(old(self)@.cameras.left_for_stance()),
            final(self)@.wf(),
    {
        proof {
            use_type_invariant(&*self);
        }
        if self.cameras.view_mode {
            let new_cameras = self.cameras.exit_view();
            self.cameras = new_cameras;
        }
    }

    /// Camera preset 3: enter view mode as V would (`recentered` as there),
    /// then look down the potting line from `pot_line`.
    pub fn enter_pot_line_view(&mut self, recentered: C, pot_line: C)
        ensures
            final(self)@ == old(self)@.with_cameras(old(self)@.cameras.at_pot_line(recentered, pot_line)),
            final(self)@.wf(),
    {
        proof {
            use_type_invariant(&*self);
        }
        let entered = if self.cameras.view_mode {
            self.cameras.copy()
        } else {
            self.cameras.enter_view(recentered)
        };
        let new_cameras = Cameras { camera: pot_line, ..entered };
        self.cameras = new_cameras;
    }
}

/// Every camera transition keeps an aiming camera saved exactly while in
/// view mode.
pub proof fn camera_transitions_keep_wf<C>(c: Cameras<C>, recentered: C, other: C)
    requires
        c.wf(),
    ensures
        c.with_camera(other).wf(),
        c.toggled_view(recentered).wf(),
        c.left_for_stance().wf(),
        c.at_pot_line(recentered, other).wf(),
        c.restarted(other).wf(),
{
}

/// Toggling view mode off and back on resumes exactly the free-roam camera
/// that was being inspected from, however the aiming camera moved in
/// between; leaving through camera preset 1 or 2 does the same as V.
pub proof fn view_mode_resumes_where_it_was_left<C>(c: Cameras<C>, recentered1: C, moved: C, recentered2: C)
    requires
        c.wf(),
        c.view_mode,
    ensures
        c.toggled_view(recentered1).with_camera(moved).toggled_view(recentered2).camera == c.camera,
        c.left_for_stance().with_camera(moved).toggled_view(recentered2).camera == c.camera,
{
}

/// After a new layout there is no free-roam camera to resume: entering view
/// mode starts from the aiming camera re-centered on the cue ball.
pub proof fn new_layout_forgets_view_camera<C>(c: Cameras<C>, camera: C, recentered: C)
    ensures
        !c.restarted(camera).view_mode,
        c.restarted(camera).toggled_view(recentered).camera == recentered,
        c.restarted(camera).toggled_view(recentered).aim() == recentered,
{
}

/// Entering view mode freezes the aim at the aiming camera (re-centered the
/// first time in a layout); moving the camera while inspecting leaves the
/// aim untouched; and leaving view mode snaps back to exactly that aim.
pub proof fn view_mode_freezes_the_aim<C>(c: Cameras<C>, recentered1: C, moved: C, recentered2: C)
    requires
        c.wf(),
        !c.view_mode,
    ensures
        ({
            let inside = c.toggled_view(recentered1);
            &&& inside.aim() == (if c.last_view_camera is None { recentered1 } else { c.camera })
            &&& inside.with_camera(moved).aim() == inside.aim()
            &&& inside.with_camera(moved).toggled_view(recentered2).camera == inside.aim()
            &&& inside.with_camera(moved).toggled_view(recentered2).aim() == inside.aim()
        }),
{
}

/// Outside view mode the cue aims wherever the live camera looks.
pub proof fn aim_follows_camera_outside_view_mode<C>(c: Cameras<C>, moved: C)
    requires
        !c.view_mode,
    ensures
        c.with_camera(moved).aim() == moved,
{
}

/// R first clears a tested shot without touching anything else; only once
/// no tested shot is showing does it ask for a new layout.
pub proof fn reset_clears_shot_before_new_layout<C, L, S>(g: GameModel<C, L, S>)
    requires
        g.shot_test is Some,
    ensures
        ({
            let (cleared, first) = g.after_reset();
            let (again, second) = cleared.after_reset();
            &&& first == ResetOutcome::ClearedShotTest
            &&& cleared == (GameModel { shot_test: None, ..g })
            &&& second == ResetOutcome::NewLayoutNeeded
            &&& again == cleared
        }),
{
}

/// While the help popup is open, any tap that is not on the help button
/// closes it; pressing help again closes it too.
pub proof fn any_tap_dismisses_help<C, L, S>(g: GameModel<C, L, S>, debug_toggle: bool)
    requires
        g.help_visible,
    ensures
        !g.after_global_toggles(debug_toggle, false, true).help_visible,
        !g.after_global_toggles(debug_toggle, true, false).help_visible,
        !g.after_global_toggles(debug_toggle, true, true).help_visible,
{
}

/// Camera preset 3 enters view mode exactly as V would, so the aim is
/// frozen the same way, and then looks down the potting line; pressed again
/// while inspecting, it only moves the camera.
pub proof fn pot_line_preset_enters_view_mode_like_v<C>(c: Cameras<C>, recentered: C, pot_line: C)
    requires
        c.wf(),
    ensures
        c.at_pot_line(recentered, pot_line).view_mode,
        c.at_pot_line(recentered, pot_line).camera == pot_line,
        !c.view_mode ==> c.at_pot_line(recentered, pot_line).aim() == c.toggled_view(recentered).aim(),
        !c.view_mode ==> c.at_pot_line(recentered, pot_line).saved_camera == c.toggled_view(recentered).saved_camera,
        c.view_mode ==> c.at_pot_line(recentered, pot_line) == c.with_camera(pot_line),
{
}

/// One call on a session in view mode that is neither the view-mode toggle,
/// a reset that rolls a new layout, nor camera preset 1 or 2: moving the
/// camera, the global toggles, the pause menu, recording a shot test, the
/// display toggles, a reset that clears a shot test, and preset 3.
pub enum InspectionEvent<C, S> {
    MoveCamera(C),
    GlobalToggles(bool, bool, bool),
    Menu(bool, bool, bool),
    RecordShot(S),
    ToggleGhostAimVisible,
    ToggleGhostBall,
    ToggleAimLine,
    ClearShotTest,
    PotLine(C, C),
}

impl<C, L, S> GameModel<C, L, S> {
    /// The state after `e`, as the matching `GameState` method leaves it.
    pub open spec fn after_event(self, e: InspectionEvent<C, S>) -> Self {
        match e {
            InspectionEvent::MoveCamera(c) => self.with_cameras(self.cameras.with_camera(c)),
            InspectionEvent::GlobalToggles(d, h, t) => self.after_global_toggles(d, h, t),
            InspectionEvent::Menu(e, c, q) => self.after_menu(e, c, q),
            InspectionEvent::RecordShot(t) => GameModel { shot_test: Some(t), ..self },
            InspectionEvent::ToggleGhostAimVisible => GameModel { ghost_aim_visible: !self.ghost_aim_visible, ..self },
            InspectionEvent::ToggleGhostBall => GameModel { show_ghost_ball: !self.show_ghost_ball, ..self },
            InspectionEvent::ToggleAimLine => GameModel { show_aim_line: !self.show_aim_line, ..self },
            InspectionEvent::ClearShotTest => self.after_reset().0,
            InspectionEvent::PotLine(r, p) => self.with_cameras(self.cameras.at_pot_line(r, p)),
        }
    }

    /// The state after the calls `es`, in order.
    pub open spec fn after_events(self, es: Seq<InspectionEvent<C, S>>) -> Self
        decreases es.len(),
    {
        if es.len() == 0 {
            self
        } else {
            self.after_events(es.drop_last()).after_event(es.last())
        }
    }
}

/// While in view mode, the cue's aim stays frozen through any sequence of
/// calls other than V, a reset that rolls a new layout, and presets 1/2:
/// after every prefix of the sequence the session is still in view mode,
/// well formed, and aims with the same camera, however the live camera
/// moved.
pub proof fn view_mode_keeps_the_aim_frozen<C, L, S>(g: GameModel<C, L, S>, es: Seq<InspectionEvent<C, S>>)
    requires
        g.wf(),
        g.cameras.view_mode,
    ensures
        forall|n: int| 0 <= n <= es.len() ==> {
            let h = #[trigger] g.after_events(es.take(n));
            &&& h.wf()
            &&& h.cameras.view_mode
            &&& h.cameras.aim() == g.cameras.aim()
        },
    decreases es.len(),
{
    if es.len() > 0 {
        view_mode_keeps_the_aim_frozen(g, es.drop_last());
    }
    assert forall|n: int| 0 <= n <= es.len() implies {
        let h = #[trigger] g.after_events(es.take(n));
        &&& h.wf()
        &&& h.cameras.view_mode
        &&& h.cameras.aim() == g.cameras.aim()
    } by {
        if n < es.len() {
            assert(es.take(n) =~= es.drop_last().take(n));
        } else {
            assert(es.take(n) =~= es);
            if n > 0 {
                assert(es.drop_last() =~= es.drop_last().take(n - 1));
                let prev = g.after_events(es.drop_last().take(n - 1));
                assert(g.after_events(es) == prev.after_event(es.last()));
            }
        }
    }
}

/// Shift+` flips the collision-debug overlay (so pressing it twice restores
/// it); the help popup flips when help is pressed, otherwise a tap closes
/// it; nothing else in the session changes.
pub proof fn global_toggles_flip_their_flags<C, L, S>(g: GameModel<C, L, S>, debug_toggle: bool, help_toggle: bool, tap: bool)
    ensures
        ({
            let h = g.after_global_toggles(debug_toggle, help_toggle, tap);
            &&& h.show_collision_debug == (if debug_toggle { !g.show_collision_debug } else { g.show_collision_debug })
            &&& h.help_visible == (if help_toggle { !g.help_visible } else { g.help_visible && !tap })
            &&& h.cameras == g.cameras
            &&& h.layout == g.layout
            &&& h.shot_test == g.shot_test
            &&& h.show_ghost_ball == g.show_ghost_ball
            &&& h.show_aim_line == g.show_aim_line
            &&& h.ghost_aim_visible == g.ghost_aim_visible
            &&& h.menu_visible == g.menu_visible
            &&& h.quit_requested == g.quit_requested
        }),
        g.after_global_toggles(true, false, false).after_global_toggles(true, false, false).show_collision_debug
            == g.show_collision_debug,
        g.after_global_toggles(true, false, false).show_collision_debug != g.show_collision_debug,
{
}

/// Esc flips the pause menu; without Esc, CONTINUE closes an open menu and
/// QUIT on an open menu asks the program to end; a closed menu ignores
/// both, and a quit request is never withdrawn. Nothing else changes.
pub proof fn pause_menu_opens_closes_and_quits<C, L, S>(g: GameModel<C, L, S>, esc: bool, continue_tap: bool, quit_tap: bool)
    ensures
        ({
            let h = g.after_menu(esc, continue_tap, quit_tap);
            &&& h.menu_visible == (if esc { !g.menu_visible } else { g.menu_visible && !continue_tap })
            &&& h.quit_requested == (g.quit_requested || (g.menu_visible && !esc && quit_tap))
            &&& h.cameras == g.cameras
            &&& h.layout == g.layout
            &&& h.shot_test == g.shot_test
            &&& h.show_ghost_ball == g.show_ghost_ball
            &&& h.show_aim_line == g.show_aim_line
            &&& h.help_visible == g.help_visible
            &&& h.ghost_aim_visible == g.ghost_aim_visible
            &&& h.show_collision_debug == g.show_collision_debug
        }),
{
}

} // verus!

//! One frame of the game: all that the game holds, and how a frame takes it
//! through the sets of the schedule.
//!
//! The library holds no trigonometry. Where a frame needs the sine and cosine
//! of a heading, or the heading of a velocity, it asks the functions that the
//! caller hands it, and reports what they answered.

use crate::camera::{
    framing, spawn_camera, update_camera, update_camera_zoom, Camera, CameraPose, MousePosition,
    Vec2, Zoom, CAMERA_START_X, CAMERA_START_Y, CAMERA_START_Z, ZOOM_START,
};
use crate::input::{keys_in, read_keys, Keys, MouseWheel};
use crate::math::Vec3;
use crate::menu::{
    button_hower, changes_are_plain, fortsetzen_button, hover_all, lemma_changes_are_plain,
    lemma_check_keeps_well_formed, lemma_presses_ignore_looks, lock_toggled_all, pressed_in,
    quit_game_button, same_shapes, toggle_framerate_lock, Control, InteractionChange, Limiter,
    Menu, MenuState, MenuView,
};
use crate::physics::{apply_force, Facing, Force, Mass, Physics, Position, Rotation, Velocity};
use crate::schedule::{lemma_menu_exclusivity, plan, ScheduleSet};
use crate::tank::{
    drive, pushed_by_keys, slowdown_player_tank, slowed, spawn_player_tank, speed_is_plain,
    steered_by_keys, update_model_pos, Transform, TANK_MASS,
};
use bevy::input::keyboard::KeyCode;
use bevy::input::Input;
use vstd::prelude::*;

verus! {

/// All that the game holds from frame to frame.
#[derive(Debug)]
pub struct Game {
    /// The player's tank.
    pub tank: Physics,
    /// Where the tank's model is drawn.
    pub model: Transform,
    pub camera: Camera,
    pub menu: Menu,
    /// How the frame rate is held.
    pub limiter: Limiter,
}

/// The game as contracts see it.
pub struct GameView {
    pub tank: Physics,
    pub model: Transform,
    pub camera: Camera,
    pub menu: MenuView,
    pub limiter: Limiter,
}

impl View for Game {
    type V = GameView;

    open spec fn view(&self) -> GameView {
        GameView {
            tank: self.tank,
            model: self.model,
            camera: self.camera,
            menu: self.menu@,
            limiter: self.limiter,
        }
    }
}

/// What the caller's trigonometry answered in a frame of the running game.
#[derive(Clone, Copy, PartialEq, Eq, Structural, Debug)]
pub struct Trig {
    /// The sine and cosine of the tank's heading as the frame began.
    pub steering: Facing,
    /// The heading of the tank's accelerated velocity, where the tank did not
    /// come to rest; else the tank's own heading.
    pub course: Rotation,
    /// The sine and cosine of the tank's heading once it had moved.
    pub framing: Facing,
}

/// The figures of the tank that a frame shows last.
#[derive(Clone, Copy, PartialEq, Eq, Structural, Debug)]
pub struct DebugReadout {
    pub position: Vec3,
    pub force: Vec3,
    pub mass: u32,
    pub rotation: Rotation,
    /// The length of the velocity, rounded down.
    pub speed: u64,
}

/// What a frame did.
#[derive(Debug)]
pub struct FrameReport {
    /// The sets that ran, in their order.
    pub phases: Vec<ScheduleSet>,
    /// Whether the button that ends the game was pressed. The frame stops
    /// there, and the caller ends the process.
    pub quit: bool,
    /// What the caller's trigonometry answered, where the game ran.
    pub trig: Option<Trig>,
    /// The figures of the tank, unless the frame stopped before them.
    pub debug: Option<DebugReadout>,
}

impl GameView {
    /// Whether the tank can be moved and the menu shows what it should.
    pub open spec fn well_formed(self) -> bool {
        self.tank.well_formed() && self.menu.well_formed()
    }

    /// The game as it begins: the tank rests at the origin, the camera stands
    /// off to the side, the menu is closed, and the frame rate is held to the
    /// display.
    pub open spec fn initial() -> GameView {
        GameView {
            tank: Physics {
                position: Position(Vec3::zero()),
                rotation: Rotation::identity(),
                mass: Mass(TANK_MASS),
                velocity: Velocity(Vec3::zero()),
                force: Force(Vec3::zero()),
            },
            model: Transform { translation: Vec3::zero(), rotation: Rotation::identity() },
            camera: Camera {
                pose: CameraPose {
                    translation: Vec3 { x: CAMERA_START_X, y: CAMERA_START_Y, z: CAMERA_START_Z },
                    looking_at: Vec3::zero(),
                },
                zoom: Zoom(ZOOM_START),
                mouse_position: MousePosition(Vec2 { x: 0, y: 0 }),
            },
            menu: MenuView::initial(),
            limiter: Limiter::Auto,
        }
    }

    /// The game after the check of the menu.
    pub open spec fn checked(self, keys: Keys) -> GameView {
        GameView { menu: self.menu.checked(keys.menu), ..self }
    }

    /// The game after the set `Input`: the keys have turned and pushed the
    /// tank, the drag has held it back, and the wheel and the key have set the
    /// zoom.
    pub open spec fn steered(
        self,
        keys: Keys,
        dt: u32,
        scroll: Seq<MouseWheel>,
        facing: Facing,
    ) -> GameView {
        let zoom = self.camera.zoom.scrolled_through(scroll);
        GameView {
            tank: Physics {
                rotation: steered_by_keys(self.tank.rotation, self.tank.velocity, keys, dt),
                force: slowed(
                    pushed_by_keys(self.tank.force, self.tank.velocity, keys, facing),
                    self.tank.velocity,
                    self.tank.mass,
                ),
                ..self.tank
            },
            camera: Camera {
                zoom: if keys.view {
                    zoom.switched()
                } else {
                    zoom
                },
                ..self.camera
            },
            ..self
        }
    }

    /// The game after the set `Physics`.
    pub open spec fn moved(self, dt: u32, course: Rotation) -> GameView {
        GameView { tank: self.tank.integrated(dt, course), ..self }
    }

    /// The game after the set `UpdateWorld`: the model is where the tank is,
    /// and the camera trails it.
    pub open spec fn shown(self, facing: Facing) -> GameView {
        GameView {
            model: Transform { translation: self.tank.position.0, rotation: self.tank.rotation },
            camera: Camera {
                pose: framing(self.tank.position, facing, self.camera.zoom),
                ..self.camera
            },
            ..self
        }
    }

    /// The game after the sets of a frame in which the game runs.
    pub open spec fn played(
        self,
        keys: Keys,
        dt: u32,
        scroll: Seq<MouseWheel>,
        trig: Trig,
    ) -> GameView {
        self.steered(keys, dt, scroll, trig.steering).moved(dt, trig.course).shown(trig.framing)
    }

    /// The game after the set `PauseMenu`: the buttons have been served. Each
    /// press of the button for the frame rate flips how it is held, a press of
    /// the button that resumes the game asks for the menu to close, and the
    /// buttons are raised and rest as the pointer comes and goes.
    pub open spec fn paused(self, changes: Seq<InteractionChange>) -> GameView {
        let toggled = lock_toggled_all(self.menu.items, self.limiter, changes);
        GameView {
            menu: MenuView {
                state: self.menu.state,
                next_state: if pressed_in(self.menu.items, changes, Control::FortsetzenButton) {
                    Some(MenuState::Closed)
                } else {
                    self.menu.next_state
                },
                items: hover_all(toggled.0, changes),
            },
            limiter: toggled.1,
            ..self
        }
    }

    /// What the buttons make of a short list of changes, without going
    /// through the list (see `changes_are_plain`). This holds of every game
    /// and every list.
    pub open spec fn changes_are_plain(self, changes: Seq<InteractionChange>) -> bool {
        &&& changes_are_plain(self.menu.items, self.limiter, changes)
        &&& changes_are_plain(
            lock_toggled_all(self.menu.items, self.limiter, changes).0,
            self.limiter,
            changes,
        )
    }

    /// Whether the set `PauseMenu` finds the button pressed that ends the game.
    pub open spec fn quits(self, changes: Seq<InteractionChange>) -> bool {
        pressed_in(self.menu.items, changes, Control::QuitButton)
    }

    /// The figures of the tank.
    pub open spec fn readout(self) -> DebugReadout {
        DebugReadout {
            position: self.tank.position.0,
            force: self.tank.force.0,
            mass: self.tank.mass.0,
            rotation: self.tank.rotation,
            speed: self.tank.velocity.0.norm() as u64,
        }
    }
}

/// The sets that run in a frame whose menu, once checked, is in `state`, where
/// `quit` says whether the frame stops at the button that ends the game.
pub open spec fn executed(state: MenuState, quit: bool) -> Seq<ScheduleSet> {
    if state == MenuState::Open && quit {
        seq![ScheduleSet::CheckMenu, ScheduleSet::PauseMenu]
    } else {
        plan(state)
    }
}

impl Game {
    /// Whether the tank can be moved and the menu shows what it should: what
    /// a frame asks of the game that it is to run on.
    pub fn is_well_formed(&self) -> (r: bool)
        ensures
            r == self@.well_formed(),
    {
        self.tank.mass.0 > 0 && self.menu.is_well_formed()
    }

    /// The game as it begins.
    pub fn new() -> (game: Game)
        ensures
            game@ == GameView::initial(),
            game@.well_formed(),
    {
        Game {
            tank: spawn_player_tank(),
            model: Transform { translation: Vec3::origin(), rotation: Rotation::facing_z() },
            camera: spawn_camera(),
            menu: Menu::new(),
            limiter: Limiter::Auto,
        }
    }
}

/// The set `Input`: the keys act on the tank, then the drag, and the wheel acts
/// on the zoom, then the key. `facing` is the sine and cosine of the tank's
/// heading.
pub fn input_phase(
    game: &mut Game,
    keys: Keys,
    dt: u32,
    scroll_evr: &Vec<MouseWheel>,
    facing: Facing,
)
    ensures
        final(game)@ == old(game)@.steered(keys, dt, scroll_evr@, facing),
        speed_is_plain(old(game)@.tank.velocity),
        old(game)@.camera.zoom.scroll_is_plain(scroll_evr@),
        facing.turn_is_plain(),
{
    let mut rotation = game.tank.rotation;
    let mut force = game.tank.force;
    let velocity = game.tank.velocity;
    let mass = game.tank.mass;
    drive(&mut rotation, &mut force, &velocity, keys, dt, facing);
    slowdown_player_tank(&mut force, &velocity, &mass);
    game.tank.rotation = rotation;
    game.tank.force = force;
    let mut zoom = game.camera.zoom;
    update_camera_zoom(&mut zoom, scroll_evr);
    if keys.view {
        zoom = zoom.switch();
    }
    game.camera.zoom = zoom;
}

/// The set `Physics`. `course` is the heading of the tank's accelerated
/// velocity.
pub fn physics_phase(game: &mut Game, dt: u32, course: Rotation)
    requires
        old(game)@.tank.well_formed(),
    ensures
        final(game)@ == old(game)@.moved(dt, course),
        old(game)@.tank.accelerated(dt).rest_is_plain(),
{
    let mut tank = game.tank;
    apply_force(&mut tank, dt, course);
    game.tank = tank;
}

/// The set `UpdateWorld`. `facing` is the sine and cosine of the tank's
/// heading.
pub fn update_world_phase(game: &mut Game, facing: Facing)
    ensures
        final(game)@ == old(game)@.shown(facing),
        facing.turn_is_plain(),
{
    let mut model = game.model;
    update_model_pos(&game.tank.position, &game.tank.rotation, &mut model);
    game.model = model;
    let mut pose = game.camera.pose;
    update_camera(&game.tank.position, facing, &game.camera.zoom, &mut pose);
    game.camera.pose = pose;
}

/// The set `PauseMenu`. Says whether the button that ends the game was
/// pressed.
pub fn pause_menu_phase(game: &mut Game, changes: &Vec<InteractionChange>) -> (quit: bool)
    ensures
        final(game)@ == old(game)@.paused(changes@),
        quit == old(game)@.quits(changes@),
        old(game)@.menu.well_formed() ==> final(game)@.menu.well_formed(),
        old(game)@.changes_are_plain(changes@),
{
    proof {
        lemma_changes_are_plain(game@.menu.items, game@.limiter, changes@);
        lemma_changes_are_plain(
            lock_toggled_all(game@.menu.items, game@.limiter, changes@).0,
            game@.limiter,
            changes@,
        );
    }
    let ghost before = game@.menu.items;
    let mut limiter = game.limiter;
    toggle_framerate_lock(&mut game.menu, &mut limiter, changes);
    game.limiter = limiter;
    let ghost toggled = game@.menu.items;
    fortsetzen_button(&mut game.menu, changes);
    button_hower(&mut game.menu, changes);
    proof {
        lemma_presses_ignore_looks(toggled, before, changes@, Control::FortsetzenButton);
        assert(same_shapes(game@.menu.items, before)) by {
            assert forall|i: int| 0 <= i < before.len() implies (#[trigger] game@.menu.items[i])
                .same_shape(before[i]) by {
                assert(game@.menu.items[i].same_shape(toggled[i]));
                assert(toggled[i].same_shape(before[i]));
            }
        }
        lemma_presses_ignore_looks(game@.menu.items, before, changes@, Control::QuitButton);
    }
    quit_game_button(&game.menu, changes)
}

/// The set `Debug`: the figures of the tank.
pub fn debug_phase(game: &Game) -> (figures: DebugReadout)
    ensures
        figures == game@.readout(),
{
    DebugReadout {
        position: game.tank.position.0,
        force: game.tank.force.0,
        mass: game.tank.mass.0,
        rotation: game.tank.rotation,
        speed: game.tank.velocity.0.length(),
    }
}

/// Whether `after` and `report` are what a frame makes of the game `before`:
/// the sets that the report lists have run, and the game is as they left it.
///
/// The menu is checked first, and the menu as the check leaves it settles
/// which sets run. While it is closed, the game is played: the report holds
/// what the caller's trigonometry answered for the tank's heading as the
/// frame began, for the velocity that the tank was given, and for its heading
/// once it had moved. While it is open, the buttons are served. The clauses
/// on what is plain hold of every game; they spare a caller the squares and
/// the lists.
pub open spec fn frame_holds<F: Fn(Rotation) -> Facing, C: Fn(Velocity) -> Rotation>(
    before: GameView,
    keys: Keys,
    dt: u32,
    scroll: Seq<MouseWheel>,
    changes: Seq<InteractionChange>,
    facing_of: F,
    course_of: C,
    after: GameView,
    report: FrameReport,
) -> bool {
    let checked = before.checked(keys);
    &&& after.menu.state == checked.menu.state
    &&& report.phases@ == executed(after.menu.state, report.quit)
    &&& after.menu.state == MenuState::Closed ==> {
        let steered = checked.steered(keys, dt, scroll, report.trig->0.steering);
        &&& !report.quit
        &&& report.trig is Some
        &&& after == checked.played(keys, dt, scroll, report.trig->0)
        &&& call_ensures(facing_of, (checked.tank.rotation,), report.trig->0.steering)
        &&& if steered.tank.accelerated(dt).at_rest() {
            report.trig->0.course == steered.tank.rotation
        } else {
            call_ensures(course_of, (steered.tank.accelerated(dt),), report.trig->0.course)
        }
        &&& call_ensures(facing_of, (after.tank.rotation,), report.trig->0.framing)
        &&& speed_is_plain(checked.tank.velocity)
        &&& checked.camera.zoom.scroll_is_plain(scroll)
        &&& steered.tank.accelerated(dt).rest_is_plain()
        &&& report.trig->0.steering.turn_is_plain()
        &&& report.trig->0.framing.turn_is_plain()
    }
    &&& after.menu.state == MenuState::Open ==> {
        &&& report.trig is None
        &&& after == checked.paused(changes)
        &&& report.quit == checked.quits(changes)
        &&& checked.changes_are_plain(changes)
    }
    &&& report.debug == if report.quit {
        None
    } else {
        Some(after.readout())
    }
}

/// Runs one frame of `dt` microseconds on what the keyboard is known to hold.
///
/// The menu is checked first. Then each set is asked in its turn whether it
/// runs, as the menu now stands: while the menu is closed the game runs,
/// `Input`, `Physics`, `UpdateWorld`, in this order; while it is open the
/// buttons are served instead, and a press of the button that ends the game
/// stops the frame there. The figures come last. `facing_of` gives the sine
/// and cosine of a heading and `course_of` the heading of a velocity; what
/// they answered stands in the report.
pub fn step_frame<F: Fn(Rotation) -> Facing, C: Fn(Velocity) -> Rotation>(
    game: &mut Game,
    keys: Keys,
    dt: u32,
    scroll_evr: &Vec<MouseWheel>,
    interactions: &Vec<InteractionChange>,
    facing_of: F,
    course_of: C,
) -> (report: FrameReport)
    requires
        old(game)@.well_formed(),
        forall|heading: Rotation| call_requires(facing_of, (heading,)),
        forall|velocity: Velocity| call_requires(course_of, (velocity,)),
    ensures
        final(game)@.well_formed(),
        frame_holds(
            old(game)@,
            keys,
            dt,
            scroll_evr@,
            interactions@,
            facing_of,
            course_of,
            final(game)@,
            report,
        ),
{
    let mut phases: Vec<ScheduleSet> = Vec::new();
    proof {
        lemma_check_keeps_well_formed(game@.menu, keys.menu);
    }
    game.menu.check(keys.menu);
    phases.push(ScheduleSet::CheckMenu);
    let mut trig = Trig {
        steering: Facing { sin: 0, cos: 0 },
        course: game.tank.rotation,
        framing: Facing { sin: 0, cos: 0 },
    };
    if ScheduleSet::Input.is_enabled(game.menu.state()) {
        trig.steering = facing_of(game.tank.rotation);
        input_phase(game, keys, dt, scroll_evr, trig.steering);
        phases.push(ScheduleSet::Input);
    }
    if ScheduleSet::Physics.is_enabled(game.menu.state()) {
        let velocity = game.tank.next_velocity(dt);
        trig.course = if velocity.is_at_rest() {
            game.tank.rotation
        } else {
            course_of(velocity)
        };
        physics_phase(game, dt, trig.course);
        phases.push(ScheduleSet::Physics);
    }
    if ScheduleSet::UpdateWorld.is_enabled(game.menu.state()) {
        trig.framing = facing_of(game.tank.rotation);
        update_world_phase(game, trig.framing);
        phases.push(ScheduleSet::UpdateWorld);
    }
    if ScheduleSet::PauseMenu.is_enabled(game.menu.state()) {
        let quit = pause_menu_phase(game, interactions);
        phases.push(ScheduleSet::PauseMenu);
        if quit {
            assert(phases@ =~= executed(MenuState::Open, true));
            return FrameReport { phases, quit: true, trig: None, debug: None };
        }
    }
    let figures = debug_phase(game);
    phases.push(ScheduleSet::Debug);
    assert(phases@ =~= executed(game@.menu.state, false));
    let trig = match game.menu.state() {
        MenuState::Closed => Some(trig),
        MenuState::Open => None,
    };
    FrameReport { phases, quit: false, trig, debug: Some(figures) }
}

/// Reads the keyboard and runs one frame of `dt` microseconds: `step_frame` on
/// the keys that `keyboard_input` holds.
pub fn run_frame<F: Fn(Rotation) -> Facing, C: Fn(Velocity) -> Rotation>(
    game: &mut Game,
    keyboard_input: &Input<KeyCode>,
    dt: u32,
    scroll_evr: &Vec<MouseWheel>,
    interactions: &Vec<InteractionChange>,
    facing_of: F,
    course_of: C,
) -> (report: FrameReport)
    requires
        old(game)@.well_formed(),
        forall|heading: Rotation| call_requires(facing_of, (heading,)),
        forall|velocity: Velocity| call_requires(course_of, (velocity,)),
    ensures
        final(game)@.well_formed(),
        frame_holds(
            old(game)@,
            keys_in(keyboard_input),
            dt,
            scroll_evr@,
            interactions@,
            facing_of,
            course_of,
            final(game)@,
            report,
        ),
{
    let keys = read_keys(keyboard_input);
    step_frame(game, keys, dt, scroll_evr, interactions, facing_of, course_of)
}

/// Whatever a frame is given, it runs either the sets of the game or the set of
/// the pause menu, never both and never neither, and which of the two is
/// settled by the menu as the check of this very frame has left it.
pub proof fn lemma_frame_runs_one_group(state: MenuState, quit: bool)
    ensures
        executed(state, quit).contains(ScheduleSet::PauseMenu) == (state == MenuState::Open),
        executed(state, quit).contains(ScheduleSet::Input) == (state == MenuState::Closed),
        executed(state, quit).contains(ScheduleSet::Physics) == (state == MenuState::Closed),
        executed(state, quit).contains(ScheduleSet::UpdateWorld) == (state == MenuState::Closed),
        executed(state, quit).first() == ScheduleSet::CheckMenu,
{
    lemma_menu_exclusivity(state);
    let e = executed(state, quit);
    if state == MenuState::Open && quit {
        assert(e[0] == ScheduleSet::CheckMenu);
        assert(e[1] == ScheduleSet::PauseMenu);
    }
}

/// Whatever the keys, the wheel and the caller's trigonometry put into a frame
/// of the running game, the tank leaves it with no force on it. A frame of the
/// open menu leaves the tank as it was. So a tank that begins a frame without
/// a force begins the next one without a force too: no force leaks from frame
/// to frame.
pub proof fn lemma_frame_leaves_no_force(
    game: GameView,
    keys: Keys,
    dt: u32,
    scroll: Seq<MouseWheel>,
    changes: Seq<InteractionChange>,
    trig: Trig,
)
    ensures
        game.played(keys, dt, scroll, trig).tank.force == Force(Vec3::zero()),
        game.paused(changes).tank.force == game.tank.force,
{
}

/// While the menu is open the game stands still: the buttons change nothing of
/// the tank, its model or the camera.
pub proof fn lemma_pause_holds_the_game(game: GameView, changes: Seq<InteractionChange>)
    ensures
        game.paused(changes).tank == game.tank,
        game.paused(changes).model == game.model,
        game.paused(changes).camera == game.camera,
{
}

/// Only the check of the menu opens and closes it. Neither the sets of the
/// game nor the buttons change whether the menu is open, so no set of a frame
/// sees a state that changes again before the frame ends.
pub proof fn lemma_only_the_check_sets_the_state(
    game: GameView,
    keys: Keys,
    dt: u32,
    scroll: Seq<MouseWheel>,
    changes: Seq<InteractionChange>,
    trig: Trig,
)
    ensures
        game.played(keys, dt, scroll, trig).menu == game.menu,
        game.paused(changes).menu.state == game.menu.state,
{
}

} // verus!

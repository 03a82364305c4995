//! The room scene: the player drags an avatar around the room that was
//! joined.

use crate::context::scene_context::{frame, update_step, Scene, SceneContext, SceneState};
use crate::events::{Event, MouseButton};
use crate::geometry::VIEWPORT_HEIGHT;
use crate::graphics::{DrawCommand, Program};
use crate::input_state::InputState;
use crate::protocol::{ClientAction, ServerMessage};
use crate::timers;
use crate::timers::Timer;
use vstd::prelude::*;

verus! {

/// Where the room has its origin, from the left edge of the window.
pub const ORIGIN_X: i32 = 300;

/// Where the room has its origin, from the bottom edge of the window.
pub const ORIGIN_Y: i32 = 200;

/// The room scene as contracts see it.
pub struct RoomState {
    /// What is known of the pointer.
    pub input: InputState,
    /// When the drag button last went down, in milliseconds of the scene's
    /// timer.
    pub move_start: i64,
    /// When the drag button last came up, in milliseconds of the scene's
    /// timer.
    pub move_stop: i64,
}

impl RoomState {
    /// The state of a room scene that has just been entered.
    pub open spec fn initial() -> RoomState {
        RoomState { input: InputState::initial(), move_start: 0, move_stop: 0 }
    }
}

/// The vector from the origin of the room to the point `(x, y)` of the
/// window system, with `y` turned upwards.
pub open spec fn drag_offset(x: i32, y: i32) -> (int, int) {
    (x - ORIGIN_X, VIEWPORT_HEIGHT - y - ORIGIN_Y)
}

/// What one step of `dt` milliseconds does about a drag towards the point
/// `(x, y)`: the avatar is dragged along the vector from the origin to the
/// point, or in place if the point is the origin.
pub open spec fn drag_toward(x: i32, y: i32, dt: i64) -> ClientAction {
    let (dx, dy) = drag_offset(x, y);
    if dx == 0 && dy == 0 {
        ClientAction::DragInPlace
    } else {
        ClientAction::Drag { dx: dx as i64, dy: dy as i64, dt }
    }
}

/// What one step of `dt` milliseconds does about a drag in progress: the
/// avatar is dragged towards the pointer.
pub open spec fn drag_step(input: InputState, dt: i64) -> ClientAction {
    drag_toward(input.mouse_x, input.mouse_y, dt)
}

/// What the pointer looks like after an event. A press or a release of the
/// drag button, which is the right one, sets the flags of the button and
/// records where the pointer is; a motion records where the pointer is;
/// anything else leaves the state as it is.
pub open spec fn after_event(input: InputState, event: Event) -> InputState {
    match event {
        Event::MouseButtonDown { x, y, mouse_btn: MouseButton::Right } => InputState {
            mouse_rbtn_pressed: true,
            mouse_rbtn_was_pressed: true,
            mouse_x: x,
            mouse_y: y,
            ..input
        },
        Event::MouseButtonUp { x, y, mouse_btn: MouseButton::Right } => InputState {
            mouse_rbtn_pressed: false,
            mouse_rbtn_was_released: true,
            mouse_x: x,
            mouse_y: y,
            ..input
        },
        Event::MouseMotion { x, y } => InputState { mouse_x: x, mouse_y: y, ..input },
        _ => input,
    }
}

/// The scene after one step taken at time `now`: both edges of the drag
/// button are used up, and each one that was pending has left its time.
pub open spec fn after_step(state: RoomState, now: i64) -> RoomState {
    RoomState {
        input: InputState {
            mouse_rbtn_was_pressed: false,
            mouse_rbtn_was_released: false,
            ..state.input
        },
        move_start: if state.input.mouse_rbtn_was_pressed {
            now
        } else {
            state.move_start
        },
        move_stop: if state.input.mouse_rbtn_was_released {
            now
        } else {
            state.move_stop
        },
    }
}

/// What one step of `dt` milliseconds asks for: a drag step while the button
/// is held, then the stop if the button has come up since the last step.
pub open spec fn step_actions(state: RoomState, dt: i64) -> Seq<ClientAction> {
    let drag = if state.input.mouse_rbtn_pressed {
        seq![drag_step(state.input, dt)]
    } else {
        Seq::<ClientAction>::empty()
    };
    let stop = if state.input.mouse_rbtn_was_released {
        seq![ClientAction::StopMove]
    } else {
        Seq::<ClientAction>::empty()
    };
    drag + stop
}

/// One step of the room scene.
pub open spec fn room_update(state: RoomState, dt: i64, now: i64) -> (RoomState, Seq<ClientAction>) {
    (after_step(state, now), step_actions(state, dt))
}

/// What the room scene becomes and asks for when an input event reaches it:
/// the event is taken in and nothing is asked for.
pub open spec fn room_input(state: RoomState, event: Event) -> (RoomState, Seq<ClientAction>) {
    (RoomState { input: after_event(state.input, event), ..state }, Seq::<ClientAction>::empty())
}

/// The commands that draw the room: the avatar on a wiped frame.
pub open spec fn room_frame() -> Seq<DrawCommand> {
    seq![DrawCommand::Clear, DrawCommand::UseProgram(Program::Shape), DrawCommand::Avatar]
}

/// The room scene.
pub struct RoomSceneContext {
    timer: Box<Timer>,
    input_state: InputState,
    debug_move_start: i64,
    debug_move_stop: i64,
}

impl View for RoomSceneContext {
    type V = RoomState;

    closed spec fn view(&self) -> RoomState {
        RoomState {
            input: self.input_state,
            move_start: self.debug_move_start,
            move_stop: self.debug_move_stop,
        }
    }
}

impl RoomSceneContext {
    /// Enters the room: the pointer has not been seen, and the scene's timer
    /// starts now.
    pub fn new() -> (scene: RoomSceneContext)
        ensures
            scene@ == RoomState::initial(),
    {
        RoomSceneContext {
            timer: timers::new(),
            input_state: InputState::default(),
            debug_move_start: 0,
            debug_move_stop: 0,
        }
    }

    /// What is known of the pointer.
    pub fn input_state(&self) -> (input: InputState)
        ensures
            input == self@.input,
    {
        self.input_state
    }

    /// When the drag button last went down, in milliseconds of the scene's
    /// timer; 0 before the first time.
    pub fn move_start(&self) -> (milliseconds: i64)
        ensures
            milliseconds == self@.move_start,
    {
        self.debug_move_start
    }

    /// When the drag button last came up, in milliseconds of the scene's
    /// timer; 0 before the first time.
    pub fn move_stop(&self) -> (milliseconds: i64)
        ensures
            milliseconds == self@.move_stop,
    {
        self.debug_move_stop
    }

    /// Takes one step of the simulation: `dt` milliseconds have passed since
    /// the last step, and the scene's timer stands at `now`.
    pub fn advance(&mut self, dt: i64, now: i64) -> (actions: Vec<ClientAction>)
        ensures
            (final(self)@, actions@) == room_update(old(self)@, dt, now),
    {
        let mut actions: Vec<ClientAction> = Vec::new();
        if self.input_state.mouse_rbtn_pressed {
            let dx: i64 = self.input_state.mouse_x as i64 - ORIGIN_X as i64;
            let dy: i64 = VIEWPORT_HEIGHT as i64 - self.input_state.mouse_y as i64 - ORIGIN_Y as i64;
            if dx == 0 && dy == 0 {
                actions.push(ClientAction::DragInPlace);
            } else {
                actions.push(ClientAction::Drag { dx, dy, dt });
            }
        }
        if self.input_state.mouse_rbtn_was_pressed {
            self.debug_move_start = now;
            self.input_state.mouse_rbtn_was_pressed = false;
        }
        if self.input_state.mouse_rbtn_was_released {
            self.debug_move_stop = now;
            actions.push(ClientAction::StopMove);
            self.input_state.mouse_rbtn_was_released = false;
        }
        assert(actions@ =~= step_actions(old(self)@, dt));
        actions
    }
}

impl SceneContext for RoomSceneContext {
    open spec fn state(&self) -> SceneState {
        SceneState::Room(self@)
    }

    fn render(&self) -> (commands: Vec<DrawCommand>)
        ensures
            commands@ == room_frame(),
    {
        let mut commands: Vec<DrawCommand> = Vec::new();
        commands.push(DrawCommand::Clear);
        commands.push(DrawCommand::UseProgram(Program::Shape));
        commands.push(DrawCommand::Avatar);
        assert(commands@ =~= room_frame());
        assert(commands@ == frame(self.state(), 0));
        commands
    }

    fn update(&mut self, received: Option<ServerMessage>) -> (actions: Vec<ClientAction>)
        ensures
            exists|dt: i64, now: i64|
                (final(self)@, actions@) == #[trigger] room_update(old(self)@, dt, now),
    {
        let dt: i64 = self.timer.frame_time();
        let now: i64 = self.timer.elapsed();
        let actions = self.advance(dt, now);
        assert((self.state(), actions@) == update_step(old(self).state(), received, dt, now));
        actions
    }

    fn user_input(&mut self, event: Event) -> (actions: Vec<ClientAction>)
        ensures
            (final(self)@, actions@) == room_input(old(self)@, event),
    {
        match event {
            Event::MouseButtonDown { x, y, mouse_btn } => {
                match mouse_btn {
                    MouseButton::Right => {
                        self.input_state.mouse_rbtn_pressed = true;
                        self.input_state.mouse_rbtn_was_pressed = true;
                        self.input_state.mouse_x = x;
                        self.input_state.mouse_y = y;
                    },
                    _ => (),
                }
            },
            Event::MouseButtonUp { x, y, mouse_btn } => {
                match mouse_btn {
                    MouseButton::Right => {
                        self.input_state.mouse_rbtn_pressed = false;
                        self.input_state.mouse_rbtn_was_released = true;
                        self.input_state.mouse_x = x;
                        self.input_state.mouse_y = y;
                    },
                    _ => (),
                }
            },
            Event::MouseMotion { x, y } => {
                self.input_state.mouse_x = x;
                self.input_state.mouse_y = y;
            },
            _ => (),
        }
        Vec::new()
    }

    fn switch_context(&mut self) -> (next: Option<Scene>)
        ensures
            next.is_none(),
            final(self)@ == old(self)@,
    {
        None
    }
}

/// Whether the avatar is at rest: the drag button is up and no release
/// waits to be acted on.
pub open spec fn at_rest(state: RoomState) -> bool {
    !state.input.mouse_rbtn_pressed && !state.input.mouse_rbtn_was_released
}

/// While the drag button is held and no release waits, a step asks for
/// exactly one drag step, along the vector from the origin to the pointer,
/// and the button is still held afterwards.
pub proof fn lemma_drag_while_held(state: RoomState, dt: i64, now: i64)
    requires
        state.input.mouse_rbtn_pressed,
        !state.input.mouse_rbtn_was_released,
    ensures
        ({
            let (next, actions) = room_update(state, dt, now);
            &&& actions == seq![drag_step(state.input, dt)]
            &&& next.input.mouse_rbtn_pressed
            &&& !next.input.mouse_rbtn_was_released
            &&& next.input.mouse_x == state.input.mouse_x
            &&& next.input.mouse_y == state.input.mouse_y
        }),
{
    assert(room_update(state, dt, now).1 =~= seq![drag_step(state.input, dt)]);
}

/// Letting go of the drag button ends the drag: the next step asks for the
/// stop, once, and for no drag step, and leaves the avatar at rest.
pub proof fn lemma_release_stops_drag(state: RoomState, x: i32, y: i32, dt: i64, now: i64)
    ensures
        ({
            let released = room_input(
                state,
                Event::MouseButtonUp { x, y, mouse_btn: MouseButton::Right },
            ).0;
            let (next, actions) = room_update(released, dt, now);
            &&& actions == seq![ClientAction::StopMove]
            &&& at_rest(next)
            &&& next.move_stop == now
        }),
{
    let released = room_input(state, Event::MouseButtonUp { x, y, mouse_btn: MouseButton::Right }).0;
    assert(room_update(released, dt, now).1 =~= seq![ClientAction::StopMove]);
}

/// An avatar at rest stays at rest: a step asks for nothing, and so does
/// every later step until the drag button goes down again.
pub proof fn lemma_rest_lasts(state: RoomState, dt: i64, now: i64)
    requires
        at_rest(state),
    ensures
        ({
            let (next, actions) = room_update(state, dt, now);
            &&& actions == Seq::<ClientAction>::empty()
            &&& at_rest(next)
        }),
{
    assert(room_update(state, dt, now).1 =~= Seq::<ClientAction>::empty());
}

/// An edge of the drag button is acted on by one step only: after any step
/// no edge waits.
pub proof fn lemma_edges_used_once(state: RoomState, dt: i64, now: i64)
    ensures
        ({
            let next = room_update(state, dt, now).0;
            &&& !next.input.mouse_rbtn_was_pressed
            &&& !next.input.mouse_rbtn_was_released
            &&& next.input.mouse_rbtn_pressed == state.input.mouse_rbtn_pressed
        }),
{
}

/// One leg of a drag: the pointer moves to `(x, y)`, then the scene takes a
/// step of `dt` milliseconds at time `now`.
pub struct Leg {
    pub x: i32,
    pub y: i32,
    pub dt: i64,
    pub now: i64,
}

/// The scene after the legs of a path, one after the other, and everything
/// that its steps asked for on the way.
pub open spec fn along(state: RoomState, path: Seq<Leg>) -> (RoomState, Seq<ClientAction>)
    decreases path.len(),
{
    if path.len() == 0 {
        (state, Seq::<ClientAction>::empty())
    } else {
        let (before, asked) = along(state, path.drop_last());
        let leg = path.last();
        let moved = room_input(before, Event::MouseMotion { x: leg.x, y: leg.y }).0;
        let (after, more) = room_update(moved, leg.dt, leg.now);
        (after, asked + more)
    }
}

/// While the drag button is held, a path of any length asks for exactly one
/// drag step per leg, in the order of the legs: the step of a leg drags
/// towards the point that the pointer moved to, for the time of that leg.
/// The avatar moves by the sum of what these steps stand for.
pub proof fn lemma_drag_along_path(state: RoomState, path: Seq<Leg>)
    requires
        state.input.mouse_rbtn_pressed,
        !state.input.mouse_rbtn_was_released,
    ensures
        along(state, path).0.input.mouse_rbtn_pressed,
        !along(state, path).0.input.mouse_rbtn_was_released,
        along(state, path).1.len() == path.len(),
        forall|i: int|
            0 <= i < path.len() ==> (#[trigger] along(state, path).1[i]) == drag_toward(
                path[i].x,
                path[i].y,
                path[i].dt,
            ),
    decreases path.len(),
{
    if path.len() > 0 {
        let shorter = path.drop_last();
        lemma_drag_along_path(state, shorter);
        let (before, asked) = along(state, shorter);
        let leg = path.last();
        let moved = room_input(before, Event::MouseMotion { x: leg.x, y: leg.y }).0;
        lemma_drag_while_held(moved, leg.dt, leg.now);
        assert forall|i: int| 0 <= i < path.len() implies (#[trigger] along(state, path).1[i])
            == drag_toward(path[i].x, path[i].y, path[i].dt) by {
            if i < shorter.len() {
                assert(along(state, path).1[i] == asked[i]);
                assert(shorter[i] == path[i]);
            }
        }
    }
}

} // verus!

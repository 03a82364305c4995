//! The controller of the scenes: it owns the scene on screen, feeds it once
//! per frame, and lets the next scene take over when the scene asks for it.
//!
//! A frame has two halves. In the first the scene takes its step with what
//! the network brought and is drawn as it is after that step. In the second
//! the scene takes in the input event of the frame, if there is one, and
//! then the scene that waits to take over, if any, replaces it. So what is
//! drawn shows the freshest word of the server, input shows on screen one
//! frame later, and scenes change at the end of a frame and nowhere else.

use crate::context::scene_context::{
    frame, input_step, pending, update_step, Scene, SceneContext, SceneState,
};
use crate::events::Event;
use crate::graphics::DrawCommand;
use crate::protocol::{ClientAction, ServerMessage};
use vstd::prelude::*;

verus! {

/// The controller as contracts see it.
pub struct ControllerState {
    /// The scene on screen.
    pub scene: SceneState,
    /// Whether the user has asked to leave.
    pub exit: bool,
}

/// What the first half of a frame hands back.
pub struct Frame {
    /// What the scene asked for in its step, in order.
    pub actions: Vec<ClientAction>,
    /// The commands that draw the frame, in order.
    pub commands: Vec<DrawCommand>,
}

/// What the second half of a frame hands back.
pub struct FrameEnd {
    /// What the scene asked for when it took in the event, in order.
    pub actions: Vec<ClientAction>,
    /// Whether another scene has taken over.
    pub switched: bool,
}

/// The first half of a frame: the scene takes its step and is drawn as it
/// is then. `dt` and `now` are what the scene's timer says at the step,
/// `elapsed` what it says when the frame is drawn.
pub open spec fn begin_step(
    state: ControllerState,
    received: Option<ServerMessage>,
    dt: i64,
    now: i64,
    elapsed: i64,
) -> (ControllerState, Seq<ClientAction>, Seq<DrawCommand>) {
    let (scene, actions) = update_step(state.scene, received, dt, now);
    (ControllerState { scene, ..state }, actions, frame(scene, elapsed))
}

/// The scene after the hand-off at the end of a frame: the scene that
/// waited, if one did, the same scene otherwise.
pub open spec fn handed_off(scene: SceneState) -> SceneState {
    match pending(scene) {
        Some(next) => next,
        None => scene,
    }
}

/// The second half of a frame: the scene takes in the event, a request to
/// leave is noted, and the hand-off is made. The result is the controller
/// afterwards, what the scene asked for, and whether another scene has taken
/// over.
pub open spec fn end_step(state: ControllerState, event: Option<Event>) -> (
    ControllerState,
    Seq<ClientAction>,
    bool,
) {
    match event {
        Some(event) => {
            let (scene, actions) = input_step(state.scene, event);
            (
                ControllerState {
                    scene: handed_off(scene),
                    exit: state.exit || event == Event::Quit,
                },
                actions,
                pending(scene).is_some(),
            )
        },
        None => (
            ControllerState { scene: handed_off(state.scene), ..state },
            Seq::<ClientAction>::empty(),
            pending(state.scene).is_some(),
        ),
    }
}

/// Owns the scene on screen and runs it frame by frame.
pub struct SceneController {
    active: Scene,
    exit: bool,
}

impl View for SceneController {
    type V = ControllerState;

    closed spec fn view(&self) -> ControllerState {
        ControllerState { scene: self.active@, exit: self.exit }
    }
}

impl SceneController {
    /// Starts with `scene` on screen. The one thing asked for is to connect
    /// to the server.
    pub fn new(scene: Scene) -> (started: (SceneController, Vec<ClientAction>))
        ensures
            started.0@ == (ControllerState { scene: scene@, exit: false }),
            started.1@ == seq![ClientAction::Connect],
    {
        let mut actions: Vec<ClientAction> = Vec::new();
        actions.push(ClientAction::Connect);
        assert(actions@ =~= seq![ClientAction::Connect]);
        (SceneController { active: scene, exit: false }, actions)
    }

    /// The scene on screen.
    pub fn active(&self) -> (scene: &Scene)
        ensures
            scene@ == self@.scene,
    {
        &self.active
    }

    /// Whether the user has asked to leave.
    pub fn exit(&self) -> (exit: bool)
        ensures
            exit == self@.exit,
    {
        self.exit
    }

    /// The first half of a frame. `received` is the message that the
    /// network brought for this frame, if one came and could be read.
    pub fn begin_frame(&mut self, received: Option<ServerMessage>) -> (out: Frame)
        ensures
            exists|dt: i64, now: i64, elapsed: i64|
                (final(self)@, out.actions@, out.commands@) == #[trigger] begin_step(
                    old(self)@,
                    received,
                    dt,
                    now,
                    elapsed,
                ),
    {
        let actions = self.active.update(received);
        let commands = self.active.render();
        proof {
            let (dt, now): (i64, i64) = choose|dt: i64, now: i64|
                (self.active@, actions@) == update_step(old(self).active@, received, dt, now);
            let elapsed: i64 = choose|elapsed: i64| commands@ == frame(self.active@, elapsed);
            assert((self@, actions@, commands@) == begin_step(old(self)@, received, dt, now, elapsed));
        }
        Frame { actions, commands }
    }

    /// The second half of a frame. `event` is the input event of this
    /// frame, if there is one.
    pub fn end_frame(&mut self, event: Option<Event>) -> (out: FrameEnd)
        ensures
            (final(self)@, out.actions@, out.switched) == end_step(old(self)@, event),
    {
        let actions = match event {
            Some(event) => {
                match event {
                    Event::Quit => {
                        self.exit = true;
                    },
                    _ => (),
                }
                self.active.user_input(event)
            },
            None => Vec::new(),
        };
        let switched = self.active.hand_off();
        FrameEnd { actions, switched }
    }

    /// Ends the run. The one thing asked for is to tell the server that the
    /// client is gone.
    pub fn shutdown(self) -> (actions: Vec<ClientAction>)
        ensures
            actions@ == seq![ClientAction::Disconnect],
    {
        let mut actions: Vec<ClientAction> = Vec::new();
        actions.push(ClientAction::Disconnect);
        assert(actions@ =~= seq![ClientAction::Disconnect]);
        actions
    }
}

/// Scenes change at the end of a frame and nowhere else: the first half of
/// a frame keeps the kind of scene that is on screen, and after the second
/// half no scene waits to take over.
pub proof fn lemma_switch_at_end_of_frame(
    state: ControllerState,
    received: Option<ServerMessage>,
    event: Option<Event>,
    dt: i64,
    now: i64,
    elapsed: i64,
)
    ensures
        begin_step(state, received, dt, now, elapsed).0.scene is Lobby <==> state.scene is Lobby,
        pending(begin_step(state, received, dt, now, elapsed).0.scene) == pending(state.scene),
        pending(end_step(state, event).0.scene).is_none(),
{
}

/// What is drawn in a frame shows what the network brought in that frame:
/// the commands are those of the scene as it is after its step.
pub proof fn lemma_frame_shows_step(
    state: ControllerState,
    received: Option<ServerMessage>,
    dt: i64,
    now: i64,
    elapsed: i64,
)
    ensures
        begin_step(state, received, dt, now, elapsed).2 == frame(
            update_step(state.scene, received, dt, now).0,
            elapsed,
        ),
{
}

/// Once the user has asked to leave, the controller does not forget it.
pub proof fn lemma_exit_stays(
    state: ControllerState,
    received: Option<ServerMessage>,
    event: Option<Event>,
    dt: i64,
    now: i64,
    elapsed: i64,
)
    requires
        state.exit,
    ensures
        begin_step(state, received, dt, now, elapsed).0.exit,
        end_step(state, event).0.exit,
{
}

} // verus!

//! What every scene can do, and the scene that is on screen.
//!
//! Once per frame the driver of the client hands the scene on screen what
//! the network brought, asks it for the frame to draw, hands it one input
//! event if there is one, and then asks whether another scene takes over.

use crate::context::main_scene_context::{
    lobby_frame, lobby_input, lobby_update, LobbyState, MainSceneContext,
};
use crate::context::room_scene_context::{
    room_frame, room_input, room_update, RoomSceneContext, RoomState,
};
use crate::events::Event;
use crate::graphics::DrawCommand;
use crate::protocol::{ClientAction, ServerMessage};
use vstd::prelude::*;

verus! {

/// A scene as contracts see it.
pub enum SceneState {
    Lobby(LobbyState),
    Room(RoomState),
}

/// The commands that draw a scene whose timer stands at `elapsed`
/// milliseconds.
pub open spec fn frame(state: SceneState, elapsed: i64) -> Seq<DrawCommand> {
    match state {
        SceneState::Lobby(lobby) => lobby_frame(lobby.rooms, elapsed),
        SceneState::Room(_) => room_frame(),
    }
}

/// One step of a scene: what it becomes and what it asks for when the
/// network brought `received`, `dt` milliseconds have passed since the last
/// step and the scene's timer stands at `now`.
pub open spec fn update_step(
    state: SceneState,
    received: Option<ServerMessage>,
    dt: i64,
    now: i64,
) -> (SceneState, Seq<ClientAction>) {
    match state {
        SceneState::Lobby(lobby) => {
            let (next, actions) = lobby_update(lobby, received);
            (SceneState::Lobby(next), actions)
        },
        SceneState::Room(room) => {
            let (next, actions) = room_update(room, dt, now);
            (SceneState::Room(next), actions)
        },
    }
}

/// What a scene becomes and what it asks for when an input event reaches it.
pub open spec fn input_step(state: SceneState, event: Event) -> (SceneState, Seq<ClientAction>) {
    match state {
        SceneState::Lobby(lobby) => {
            let (next, actions) = lobby_input(lobby, event);
            (SceneState::Lobby(next), actions)
        },
        SceneState::Room(room) => {
            let (next, actions) = room_input(room, event);
            (SceneState::Room(next), actions)
        },
    }
}

/// The scene that waits to take over from this one, if any.
pub open spec fn pending(state: SceneState) -> Option<SceneState> {
    match state {
        SceneState::Lobby(lobby) => match lobby.switch_context {
            Some(room) => Some(SceneState::Room(room)),
            None => None,
        },
        SceneState::Room(_) => None,
    }
}

/// The scene once the one that waited to take over has been handed out.
pub open spec fn without_pending(state: SceneState) -> SceneState {
    match state {
        SceneState::Lobby(lobby) => SceneState::Lobby(LobbyState { switch_context: None, ..lobby }),
        SceneState::Room(room) => SceneState::Room(room),
    }
}

/// What is on screen and reacts to input and to the network.
pub trait SceneContext {
    /// The scene as contracts see it.
    spec fn state(&self) -> SceneState;

    /// The commands that draw the current frame, in the order in which they
    /// are to be carried out. The scene reads its timer for the frame.
    fn render(&self) -> (commands: Vec<DrawCommand>)
        ensures
            exists|elapsed: i64| commands@ == #[trigger] frame(self.state(), elapsed),
    ;

    /// Takes one step. `received` is the message that the network brought
    /// for this frame, if one came and could be read. The scene reads its
    /// timer for the step.
    fn update(&mut self, received: Option<ServerMessage>) -> (actions: Vec<ClientAction>)
        ensures
            exists|dt: i64, now: i64|
                (final(self).state(), actions@) == #[trigger] update_step(
                    old(self).state(),
                    received,
                    dt,
                    now,
                ),
    ;

    /// Takes in one input event.
    fn user_input(&mut self, event: Event) -> (actions: Vec<ClientAction>)
        ensures
            (final(self).state(), actions@) == input_step(old(self).state(), event),
    ;

    /// Hands out the scene that waits to take over, if there is one. It is
    /// handed out once: after the call none waits any more.
    fn switch_context(&mut self) -> (next: Option<Scene>)
        ensures
            match next {
                Some(scene) => pending(old(self).state()) == Some(scene@),
                None => pending(old(self).state()).is_none(),
            },
            final(self).state() == without_pending(old(self).state()),
    ;
}

/// The scene on screen: the lobby or a room.
pub enum Scene {
    Lobby(MainSceneContext),
    Room(RoomSceneContext),
}

impl View for Scene {
    type V = SceneState;

    open spec fn view(&self) -> SceneState {
        match self {
            Scene::Lobby(lobby) => SceneState::Lobby(lobby@),
            Scene::Room(room) => SceneState::Room(room@),
        }
    }
}

impl SceneContext for Scene {
    open spec fn state(&self) -> SceneState {
        self@
    }

    fn render(&self) -> (commands: Vec<DrawCommand>) {
        match self {
            Scene::Lobby(lobby) => {
                let commands = lobby.render();
                proof {
                    let elapsed: i64 = choose|elapsed: i64|
                        commands@ == frame(lobby.state(), elapsed);
                    assert(commands@ == frame(self.state(), elapsed));
                }
                commands
            },
            Scene::Room(room) => {
                let commands = room.render();
                assert(commands@ == frame(self.state(), 0));
                commands
            },
        }
    }

    fn update(&mut self, received: Option<ServerMessage>) -> (actions: Vec<ClientAction>) {
        match self {
            Scene::Lobby(lobby) => {
                let actions = lobby.update(received);
                assert((self.state(), actions@) == update_step(old(self).state(), received, 0, 0));
                actions
            },
            Scene::Room(room) => {
                let ghost before = room.state();
                let actions = room.update(received);
                proof {
                    let (dt, now): (i64, i64) = choose|dt: i64, now: i64|
                        (room.state(), actions@) == update_step(before, received, dt, now);
                    assert((self.state(), actions@) == update_step(old(self).state(), received, dt, now));
                }
                actions
            },
        }
    }

    fn user_input(&mut self, event: Event) -> (actions: Vec<ClientAction>) {
        match self {
            Scene::Lobby(lobby) => lobby.user_input(event),
            Scene::Room(room) => room.user_input(event),
        }
    }

    fn switch_context(&mut self) -> (next: Option<Scene>) {
        match self {
            Scene::Lobby(lobby) => lobby.switch_context(),
            Scene::Room(room) => room.switch_context(),
        }
    }
}

impl Scene {
    /// Lets the scene that waits take over: if one waits, it replaces this
    /// scene and the answer is `true`; if none waits, this scene stays as it
    /// is and the answer is `false`.
    pub fn hand_off(&mut self) -> (switched: bool)
        ensures
            match pending(old(self)@) {
                Some(next) => switched && final(self)@ == next,
                None => !switched && final(self)@ == old(self)@,
            },
    {
        match self.switch_context() {
            Some(next) => {
                *self = next;
                true
            },
            None => false,
        }
    }
}

/// A scene that waits to take over is handed out once: right after it has
/// been handed out none waits, so asking again gets nothing.
pub proof fn lemma_handed_out_once(state: SceneState)
    ensures
        pending(without_pending(state)).is_none(),
        without_pending(without_pending(state)) == without_pending(state),
{
}

/// The room scene is the last one: it never makes a scene wait to take
/// over, whatever happens to it.
pub proof fn lemma_room_never_switches(
    room: RoomState,
    received: Option<ServerMessage>,
    event: Event,
    dt: i64,
    now: i64,
)
    ensures
        pending(SceneState::Room(room)).is_none(),
        pending(update_step(SceneState::Room(room), received, dt, now).0).is_none(),
        pending(input_step(SceneState::Room(room), event).0).is_none(),
{
}

} // verus!

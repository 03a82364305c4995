//! The lobby scene: a row of rooms that the server opens and closes, and
//! that the player enters by releasing the pointer over one of them.

use crate::context::room_scene_context::{RoomSceneContext, RoomState};
use crate::context::scene_context::{frame, update_step, Scene, SceneContext, SceneState};
use crate::events::{Event, MouseButton};
use crate::geometry::VIEWPORT_HEIGHT;
use crate::graphics::{DrawCommand, Gfx, Program};
use crate::protocol::{ClientAction, ServerMessage};
use crate::rooms_ui::{
    all_active, first_hit, first_hit_from, fresh_row, laid_out, lemma_changes_keep_layout,
    lemma_first_hit, lemma_hit_in_slot, with_gfx, with_status, RoomSlot, RoomUICollection,
};
use crate::timers;
use crate::timers::Timer;
use vstd::prelude::*;

verus! {

/// The lobby scene as contracts see it.
pub struct LobbyState {
    /// The rooms, from left to right.
    pub rooms: Seq<RoomSlot>,
    /// The room scene that waits to take over, once the player has entered
    /// a room.
    pub switch_context: Option<RoomState>,
}

/// The rooms after a step of the lobby in which the network brought
/// `received`.
pub open spec fn after_message(rooms: Seq<RoomSlot>, received: Option<ServerMessage>) -> Seq<RoomSlot> {
    match received {
        Some(ServerMessage::RoomStatus { number, is_active }) => with_status(rooms, number, is_active),
        Some(ServerMessage::ServerOn) => all_active(rooms),
        _ => rooms,
    }
}

/// One step of the lobby: the rooms follow the server's word, and nothing is
/// asked for.
pub open spec fn lobby_update(state: LobbyState, received: Option<ServerMessage>) -> (
    LobbyState,
    Seq<ClientAction>,
) {
    (LobbyState { rooms: after_message(state.rooms, received), ..state }, Seq::<ClientAction>::empty())
}

/// The position of the room that an event enters: the first room whose box
/// holds the point at which a button came up, with `y` turned to count from
/// the bottom edge of the window.
pub open spec fn entered(rooms: Seq<RoomSlot>, event: Event) -> Option<int> {
    match event {
        Event::MouseButtonUp { x, y, .. } => first_hit(rooms, x as int, VIEWPORT_HEIGHT - y),
        _ => None,
    }
}

/// What the lobby becomes and asks for when an input event reaches it. An
/// event that enters a room asks the server once to join that room and makes
/// a new room scene wait to take over; any other event does nothing.
pub open spec fn lobby_input(state: LobbyState, event: Event) -> (LobbyState, Seq<ClientAction>) {
    match entered(state.rooms, event) {
        Some(i) => (
            LobbyState { switch_context: Some(RoomState::initial()), ..state },
            seq![ClientAction::JoinRoom { number: state.rooms[i].number }],
        ),
        None => (state, Seq::<ClientAction>::empty()),
    }
}

/// The commands that draw one room: its rectangle if the room is open and
/// has buffers, nothing otherwise.
pub open spec fn room_commands(room: RoomSlot) -> Seq<DrawCommand> {
    match room.gfx {
        Some(gfx) if room.is_active => seq![DrawCommand::Room { vao: gfx.vao }],
        _ => Seq::<DrawCommand>::empty(),
    }
}

/// The commands that draw the rooms, from left to right.
pub open spec fn row_commands(rooms: Seq<RoomSlot>) -> Seq<DrawCommand>
    decreases rooms.len(),
{
    if rooms.len() == 0 {
        Seq::<DrawCommand>::empty()
    } else {
        row_commands(rooms.drop_last()) + room_commands(rooms.last())
    }
}

/// The commands that draw the lobby whose timer stands at `elapsed`
/// milliseconds: the animated backdrop on a wiped frame, then the open
/// rooms.
pub open spec fn lobby_frame(rooms: Seq<RoomSlot>, elapsed: i64) -> Seq<DrawCommand> {
    seq![
        DrawCommand::Clear,
        DrawCommand::UseProgram(Program::Background),
        DrawCommand::Phase(elapsed),
        DrawCommand::Backdrop,
        DrawCommand::UseProgram(Program::Shape),
    ] + row_commands(rooms)
}

/// No room holds a point left of or below the window.
pub proof fn lemma_no_hit_off_screen(rooms: Seq<RoomSlot>, x: int, y: int, from: int)
    requires
        x < 0 || y < 0,
    ensures
        first_hit_from(rooms, x, y, from).is_none(),
    decreases rooms.len() - from,
{
    if 0 <= from < rooms.len() {
        lemma_no_hit_off_screen(rooms, x, y, from + 1);
    }
}

/// The lobby scene.
pub struct MainSceneContext {
    rooms: Box<RoomUICollection>,
    switch_context: Option<RoomSceneContext>,
    timer: Box<Timer>,
}

impl View for MainSceneContext {
    type V = LobbyState;

    closed spec fn view(&self) -> LobbyState {
        LobbyState {
            rooms: self.rooms@,
            switch_context: match self.switch_context {
                Some(room) => Some(room@),
                None => None,
            },
        }
    }
}

impl MainSceneContext {
    /// Opens a lobby with `count` rooms in a row, all closed. No scene waits
    /// to take over, and the lobby's timer starts now.
    pub fn new(count: u8) -> (lobby: MainSceneContext)
        ensures
            lobby@ == (LobbyState { rooms: fresh_row(count as nat), switch_context: None }),
    {
        MainSceneContext { rooms: RoomUICollection::new(count), switch_context: None, timer: timers::new() }
    }

    /// The rooms of the lobby.
    pub fn rooms(&self) -> (rooms: &RoomUICollection)
        ensures
            rooms@ == self@.rooms,
    {
        &self.rooms
    }

    /// Binds the room at position `index` to its buffers on the graphics
    /// device. A position past the last room changes nothing.
    pub fn attach_gfx(&mut self, index: usize, gfx: Gfx)
        ensures
            final(self)@ == (LobbyState {
                rooms: with_gfx(old(self)@.rooms, index as int, gfx),
                ..old(self)@
            }),
    {
        self.rooms.set_gfx(index, gfx);
    }

    /// The commands that draw the lobby when its timer stands at `elapsed`
    /// milliseconds.
    pub fn render_at(&self, elapsed: i64) -> (commands: Vec<DrawCommand>)
        ensures
            commands@ == lobby_frame(self@.rooms, elapsed),
    {
        let mut commands: Vec<DrawCommand> = Vec::new();
        commands.push(DrawCommand::Clear);
        commands.push(DrawCommand::UseProgram(Program::Background));
        commands.push(DrawCommand::Phase(elapsed));
        commands.push(DrawCommand::Backdrop);
        commands.push(DrawCommand::UseProgram(Program::Shape));
        let ghost head = commands@;
        let rooms = self.rooms.each();
        let mut i: usize = 0;
        while i < rooms.len()
            invariant
                i <= rooms@.len(),
                rooms@.len() == self@.rooms.len(),
                forall|k: int| 0 <= k < rooms@.len() ==> (#[trigger] rooms@[k])@ == self@.rooms[k],
                commands@ == head + row_commands(self@.rooms.take(i as int)),
            decreases rooms@.len() - i,
        {
            let room = &rooms[i];
            assert(self@.rooms.take(i + 1).drop_last() =~= self@.rooms.take(i as int));
            if room.is_active() {
                match room.draw() {
                    Some(command) => commands.push(command),
                    None => (),
                }
            }
            i += 1;
            assert(commands@ =~= head + row_commands(self@.rooms.take(i as int)));
        }
        assert(self@.rooms.take(i as int) =~= self@.rooms);
        commands
    }
}

impl SceneContext for MainSceneContext {
    open spec fn state(&self) -> SceneState {
        SceneState::Lobby(self@)
    }

    fn render(&self) -> (commands: Vec<DrawCommand>)
        ensures
            exists|elapsed: i64| commands@ == #[trigger] lobby_frame(self@.rooms, elapsed),
    {
        let elapsed: i64 = self.timer.elapsed();
        let commands = self.render_at(elapsed);
        assert(commands@ == frame(self.state(), elapsed));
        commands
    }

    fn update(&mut self, received: Option<ServerMessage>) -> (actions: Vec<ClientAction>)
        ensures
            (final(self)@, actions@) == lobby_update(old(self)@, received),
    {
        match received {
            Some(ServerMessage::RoomStatus { number, is_active }) => {
                self.rooms.set_status(number, is_active);
            },
            Some(ServerMessage::ServerOn) => {
                self.rooms.activate_all();
            },
            _ => (),
        }
        let actions: Vec<ClientAction> = Vec::new();
        assert((self.state(), actions@) == update_step(old(self).state(), received, 0, 0));
        actions
    }

    fn user_input(&mut self, event: Event) -> (actions: Vec<ClientAction>)
        ensures
            (final(self)@, actions@) == lobby_input(old(self)@, event),
    {
        let mut actions: Vec<ClientAction> = Vec::new();
        match event {
            Event::MouseButtonUp { x, y, .. } => {
                let flipped: i64 = VIEWPORT_HEIGHT as i64 - y as i64;
                if x >= 0 && flipped >= 0 {
                    match self.rooms.find_by_coords(x as u32, flipped as u32) {
                        Some(room) => {
                            let number: u8 = *room.number();
                            actions.push(ClientAction::JoinRoom { number });
                            self.switch_context = Some(RoomSceneContext::new());
                        },
                        None => (),
                    }
                } else {
                    proof {
                        lemma_no_hit_off_screen(self@.rooms, x as int, flipped as int, 0);
                    }
                }
            },
            _ => (),
        }
        assert(actions@ =~= lobby_input(old(self)@, event).1);
        actions
    }

    fn switch_context(&mut self) -> (next: Option<Scene>)
        ensures
            match next {
                Some(Scene::Room(room)) => old(self)@.switch_context == Some(room@),
                Some(Scene::Lobby(_)) => false,
                None => old(self)@.switch_context.is_none(),
            },
            final(self)@ == (LobbyState { switch_context: None, ..old(self)@ }),
    {
        match self.switch_context.take() {
            Some(room) => Some(Scene::Room(room)),
            None => None,
        }
    }
}

/// Of two words of the server on the same room the last one counts: after
/// "open" and then "closed" for number `number`, every room of that number
/// is closed and the rooms are as if only "closed" had come.
pub proof fn lemma_status_last_word_counts(rooms: Seq<RoomSlot>, number: u8)
    ensures
        ({
            let opened = after_message(
                rooms,
                Some(ServerMessage::RoomStatus { number, is_active: true }),
            );
            let closed = after_message(
                opened,
                Some(ServerMessage::RoomStatus { number, is_active: false }),
            );
            &&& closed == with_status(rooms, number, false)
            &&& closed.len() == rooms.len()
            &&& forall|i: int|
                0 <= i < rooms.len() ==> (#[trigger] closed[i]) == if rooms[i].number == number {
                    RoomSlot { is_active: false, ..rooms[i] }
                } else {
                    rooms[i]
                }
        }),
{
    let opened = with_status(rooms, number, true);
    assert(with_status(opened, number, false) =~= with_status(rooms, number, false));
}

/// The server's word on a room that the lobby does not have changes
/// nothing.
pub proof fn lemma_status_of_unknown_room(rooms: Seq<RoomSlot>, number: u8, is_active: bool)
    requires
        forall|i: int| 0 <= i < rooms.len() ==> (#[trigger] rooms[i]).number != number,
    ensures
        after_message(rooms, Some(ServerMessage::RoomStatus { number, is_active })) == rooms,
{
    assert(with_status(rooms, number, is_active) =~= rooms);
}

/// When the server opens the lobby every room is open afterwards, whatever
/// it was before, and is otherwise as it was.
pub proof fn lemma_server_on_opens_every_room(rooms: Seq<RoomSlot>)
    ensures
        ({
            let opened = after_message(rooms, Some(ServerMessage::ServerOn));
            &&& opened.len() == rooms.len()
            &&& forall|i: int|
                0 <= i < rooms.len() ==> (#[trigger] opened[i]) == (RoomSlot {
                    is_active: true,
                    ..rooms[i]
                })
        }),
{
}

/// A button that comes up over a room asks the server exactly once to join,
/// names the first room that holds the point, and makes exactly one room
/// scene wait to take over. The rooms stay as they are.
pub proof fn lemma_release_in_room(state: LobbyState, x: i32, y: i32, mouse_btn: MouseButton, i: int)
    requires
        0 <= i < state.rooms.len(),
        state.rooms[i].aabb.holds(x as int, VIEWPORT_HEIGHT - y),
    ensures
        ({
            let (next, actions) = lobby_input(state, Event::MouseButtonUp { x, y, mouse_btn });
            &&& actions.len() == 1
            &&& exists|k: int|
                0 <= k <= i && actions[0] == (ClientAction::JoinRoom {
                    number: (#[trigger] state.rooms[k]).number,
                }) && state.rooms[k].aabb.holds(x as int, VIEWPORT_HEIGHT - y)
            &&& laid_out(state.rooms) ==> actions[0] == (ClientAction::JoinRoom {
                number: state.rooms[i].number,
            })
            &&& next.switch_context == Some(RoomState::initial())
            &&& next.rooms == state.rooms
        }),
{
    lemma_first_hit(state.rooms, x as int, VIEWPORT_HEIGHT - y);
    let k = first_hit(state.rooms, x as int, VIEWPORT_HEIGHT - y).unwrap();
    assert(state.rooms[k].aabb.holds(x as int, VIEWPORT_HEIGHT - y));
    if laid_out(state.rooms) {
        lemma_hit_in_slot(state.rooms, i, x as int, VIEWPORT_HEIGHT - y);
    }
}

/// A button that comes up outside every room asks for nothing and leaves the
/// lobby as it is: no scene waits that did not wait before.
pub proof fn lemma_release_outside(state: LobbyState, x: i32, y: i32, mouse_btn: MouseButton)
    requires
        forall|i: int|
            0 <= i < state.rooms.len() ==> !(#[trigger] state.rooms[i]).aabb.holds(
                x as int,
                VIEWPORT_HEIGHT - y,
            ),
    ensures
        lobby_input(state, Event::MouseButtonUp { x, y, mouse_btn }) == (
            state,
            Seq::<ClientAction>::empty(),
        ),
{
    lemma_first_hit(state.rooms, x as int, VIEWPORT_HEIGHT - y);
}

/// Nothing that happens to the lobby moves a room: rooms that are laid out
/// stay laid out through every step and every input event.
pub proof fn lemma_lobby_keeps_layout(state: LobbyState, received: Option<ServerMessage>, event: Event)
    requires
        laid_out(state.rooms),
    ensures
        laid_out(lobby_update(state, received).0.rooms),
        laid_out(lobby_input(state, event).0.rooms),
{
    match received {
        Some(ServerMessage::RoomStatus { number, is_active }) => {
            lemma_changes_keep_layout(state.rooms, number, is_active, 0, Gfx { vao: 0, vbo: 0 });
        },
        Some(ServerMessage::ServerOn) => {
            lemma_changes_keep_layout(state.rooms, 0, true, 0, Gfx { vao: 0, vbo: 0 });
        },
        _ => {},
    }
}

} // verus!

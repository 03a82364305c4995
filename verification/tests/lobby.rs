use room_client::context::{MainSceneContext, Scene, SceneContext};
use room_client::events::{Event, MouseButton};
use room_client::graphics::{DrawCommand, Gfx, Program};
use room_client::input_state::InputState;
use room_client::protocol::{ClientAction, ServerMessage};

fn statuses(lobby: &MainSceneContext) -> Vec<bool> {
    lobby.rooms().each().iter().map(|room| room.is_active()).collect()
}

fn release(x: i32, y: i32) -> Event {
    Event::MouseButtonUp { x, y, mouse_btn: MouseButton::Left }
}

fn head(elapsed: i64) -> Vec<DrawCommand> {
    vec![
        DrawCommand::Clear,
        DrawCommand::UseProgram(Program::Background),
        DrawCommand::Phase(elapsed),
        DrawCommand::Backdrop,
        DrawCommand::UseProgram(Program::Shape),
    ]
}

#[test]
fn new_lobby_has_closed_rooms_and_no_pending_scene() {
    let mut lobby = MainSceneContext::new(4);
    assert_eq!(lobby.rooms().len(), 4);
    assert_eq!(statuses(&lobby), vec![false; 4]);
    assert!(lobby.switch_context().is_none());
}

#[test]
fn room_status_opens_and_closes_one_room() {
    let mut lobby = MainSceneContext::new(3);
    let actions = lobby.update(Some(ServerMessage::RoomStatus { number: 2, is_active: true }));
    assert!(actions.is_empty());
    assert_eq!(statuses(&lobby), vec![false, true, false]);
    let actions = lobby.update(Some(ServerMessage::RoomStatus { number: 2, is_active: false }));
    assert!(actions.is_empty());
    assert_eq!(statuses(&lobby), vec![false, false, false]);
}

#[test]
fn room_status_for_an_unknown_number_is_ignored() {
    let mut lobby = MainSceneContext::new(3);
    lobby.update(Some(ServerMessage::RoomStatus { number: 3, is_active: true }));
    lobby.update(Some(ServerMessage::RoomStatus { number: 9, is_active: true }));
    lobby.update(Some(ServerMessage::RoomStatus { number: 0, is_active: true }));
    assert_eq!(statuses(&lobby), vec![false, false, true]);
    lobby.update(Some(ServerMessage::RoomStatus { number: 9, is_active: false }));
    assert_eq!(statuses(&lobby), vec![false, false, true]);
}

#[test]
fn server_on_opens_all_rooms_whatever_they_were() {
    let mut closed = MainSceneContext::new(4);
    closed.update(Some(ServerMessage::ServerOn));
    assert_eq!(statuses(&closed), vec![true; 4]);

    let mut mixed = MainSceneContext::new(4);
    mixed.update(Some(ServerMessage::RoomStatus { number: 2, is_active: true }));
    mixed.update(Some(ServerMessage::ServerOn));
    assert_eq!(statuses(&mixed), vec![true; 4]);
    mixed.update(Some(ServerMessage::ServerOn));
    assert_eq!(statuses(&mixed), vec![true; 4]);
}

#[test]
fn nothing_received_changes_nothing() {
    let mut lobby = MainSceneContext::new(2);
    lobby.update(Some(ServerMessage::RoomStatus { number: 1, is_active: true }));
    assert!(lobby.update(None).is_empty());
    assert!(lobby.update(Some(ServerMessage::Other)).is_empty());
    assert_eq!(statuses(&lobby), vec![true, false]);
    assert!(lobby.switch_context().is_none());
}

#[test]
fn release_inside_an_open_room_joins_it_once() {
    let mut lobby = MainSceneContext::new(4);
    lobby.update(Some(ServerMessage::ServerOn));
    let actions = lobby.user_input(release(130, 340));
    assert_eq!(actions, vec![ClientAction::JoinRoom { number: 2 }]);
    let next = lobby.switch_context();
    assert!(matches!(next, Some(Scene::Room(_))));
    assert!(lobby.switch_context().is_none());
    assert_eq!(statuses(&lobby), vec![true; 4]);
}

#[test]
fn release_inside_a_closed_room_joins_it_too() {
    let mut lobby = MainSceneContext::new(1);
    let actions = lobby.user_input(release(50, 350));
    assert_eq!(actions, vec![ClientAction::JoinRoom { number: 1 }]);
    assert!(lobby.switch_context().is_some());
}

#[test]
fn release_outside_all_rooms_does_nothing() {
    let mut lobby = MainSceneContext::new(4);
    lobby.update(Some(ServerMessage::ServerOn));
    for (x, y) in [(115, 340), (5, 340), (130, 100), (130, 395), (500, 340), (599, 0)] {
        assert!(lobby.user_input(release(x, y)).is_empty());
        assert!(lobby.switch_context().is_none());
    }
    assert_eq!(statuses(&lobby), vec![true; 4]);
}

#[test]
fn pointer_y_is_turned_upside_down() {
    let mut lobby = MainSceneContext::new(1);
    // The slot spans 10..110 from the bottom edge, so 291..=390 from the top.
    assert!(lobby.user_input(release(50, 60)).is_empty());
    assert!(lobby.user_input(release(50, 290)).is_empty());
    assert!(lobby.user_input(release(50, 391)).is_empty());
    assert_eq!(lobby.user_input(release(50, 291)), vec![ClientAction::JoinRoom { number: 1 }]);
    assert_eq!(lobby.user_input(release(50, 390)), vec![ClientAction::JoinRoom { number: 1 }]);
}

#[test]
fn release_off_the_window_does_nothing() {
    let mut lobby = MainSceneContext::new(4);
    for (x, y) in [
        (-1, 340),
        (50, -1),
        (50, 401),
        (-50, 450),
        (i32::MIN, i32::MIN),
        (i32::MAX, i32::MAX),
        (i32::MIN, i32::MAX),
        (i32::MAX, i32::MIN),
        (50, i32::MIN),
        (50, i32::MAX),
    ] {
        assert!(lobby.user_input(release(x, y)).is_empty());
        assert!(lobby.switch_context().is_none());
    }
}

#[test]
fn any_button_enters_a_room() {
    for mouse_btn in [
        MouseButton::Unknown,
        MouseButton::Left,
        MouseButton::Middle,
        MouseButton::Right,
        MouseButton::X1,
        MouseButton::X2,
    ] {
        let mut lobby = MainSceneContext::new(2);
        let actions = lobby.user_input(Event::MouseButtonUp { x: 20, y: 380, mouse_btn });
        assert_eq!(actions, vec![ClientAction::JoinRoom { number: 1 }]);
    }
}

#[test]
fn other_events_do_nothing_in_the_lobby() {
    let mut lobby = MainSceneContext::new(2);
    let events = [
        Event::MouseButtonDown { x: 50, y: 340, mouse_btn: MouseButton::Left },
        Event::MouseMotion { x: 50, y: 340 },
        Event::Quit,
        Event::Other,
    ];
    for event in events {
        assert!(lobby.user_input(event).is_empty());
        assert!(lobby.switch_context().is_none());
    }
}

#[test]
fn a_second_release_replaces_the_pending_scene() {
    let mut lobby = MainSceneContext::new(2);
    assert_eq!(lobby.user_input(release(50, 340)), vec![ClientAction::JoinRoom { number: 1 }]);
    assert_eq!(lobby.user_input(release(150, 340)), vec![ClientAction::JoinRoom { number: 2 }]);
    assert!(lobby.switch_context().is_some());
    assert!(lobby.switch_context().is_none());
}

#[test]
fn a_miss_keeps_the_pending_scene() {
    let mut lobby = MainSceneContext::new(2);
    lobby.user_input(release(50, 340));
    assert!(lobby.user_input(release(115, 340)).is_empty());
    assert!(lobby.update(Some(ServerMessage::ServerOn)).is_empty());
    assert!(lobby.switch_context().is_some());
}

#[test]
fn pending_scene_is_a_fresh_room() {
    let mut lobby = MainSceneContext::new(1);
    lobby.user_input(release(50, 340));
    match lobby.switch_context() {
        Some(Scene::Room(room)) => {
            assert_eq!(room.input_state(), InputState::default());
            assert_eq!(room.move_start(), 0);
            assert_eq!(room.move_stop(), 0);
        }
        _ => panic!("no room scene is pending"),
    }
}

#[test]
fn closed_rooms_are_not_drawn() {
    let mut lobby = MainSceneContext::new(3);
    for i in 0..3 {
        lobby.attach_gfx(i, Gfx { vao: 10 + i as u32, vbo: 20 + i as u32 });
    }
    assert_eq!(lobby.render_at(1234), head(1234));
}

#[test]
fn open_rooms_are_drawn_from_left_to_right() {
    let mut lobby = MainSceneContext::new(3);
    for i in 0..3 {
        lobby.attach_gfx(i, Gfx { vao: 10 + i as u32, vbo: 20 + i as u32 });
    }
    lobby.update(Some(ServerMessage::RoomStatus { number: 3, is_active: true }));
    lobby.update(Some(ServerMessage::RoomStatus { number: 1, is_active: true }));
    let mut expected = head(-7);
    expected.push(DrawCommand::Room { vao: 10 });
    expected.push(DrawCommand::Room { vao: 12 });
    assert_eq!(lobby.render_at(-7), expected);
    lobby.update(Some(ServerMessage::ServerOn));
    let mut expected = head(0);
    expected.push(DrawCommand::Room { vao: 10 });
    expected.push(DrawCommand::Room { vao: 11 });
    expected.push(DrawCommand::Room { vao: 12 });
    assert_eq!(lobby.render_at(0), expected);
}

#[test]
fn open_rooms_without_buffers_are_not_drawn() {
    let mut lobby = MainSceneContext::new(2);
    lobby.attach_gfx(1, Gfx { vao: 4, vbo: 5 });
    lobby.attach_gfx(2, Gfx { vao: 6, vbo: 7 });
    lobby.update(Some(ServerMessage::ServerOn));
    let mut expected = head(i64::MAX);
    expected.push(DrawCommand::Room { vao: 4 });
    assert_eq!(lobby.render_at(i64::MAX), expected);
}

#[test]
fn render_reads_the_timer_of_the_lobby() {
    let mut lobby = MainSceneContext::new(1);
    lobby.attach_gfx(0, Gfx { vao: 1, vbo: 2 });
    lobby.update(Some(ServerMessage::ServerOn));
    let commands = lobby.render();
    assert_eq!(commands.len(), 6);
    let elapsed = match commands[2] {
        DrawCommand::Phase(elapsed) => elapsed,
        _ => panic!("the third command is not the phase"),
    };
    assert!(elapsed >= 0);
    let mut expected = head(elapsed);
    expected.push(DrawCommand::Room { vao: 1 });
    assert_eq!(commands, expected);
}

#[test]
fn empty_lobby() {
    let mut lobby = MainSceneContext::new(0);
    assert_eq!(lobby.rooms().len(), 0);
    lobby.update(Some(ServerMessage::ServerOn));
    assert!(lobby.user_input(release(50, 340)).is_empty());
    assert_eq!(lobby.render_at(3), head(3));
}

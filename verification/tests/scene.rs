use room_client::context::{MainSceneContext, RoomSceneContext, Scene, SceneContext};
use room_client::controller::SceneController;
use room_client::events::{Event, MouseButton};
use room_client::graphics::{DrawCommand, Gfx, Program};
use room_client::protocol::{ClientAction, ServerMessage};

fn release(x: i32, y: i32) -> Event {
    Event::MouseButtonUp { x, y, mouse_btn: MouseButton::Left }
}

fn lobby_with_buffers(count: u8) -> MainSceneContext {
    let mut lobby = MainSceneContext::new(count);
    for i in 0..count as usize {
        lobby.attach_gfx(i, Gfx { vao: 100 + i as u32, vbo: 200 + i as u32 });
    }
    lobby
}

#[test]
fn switch_token_is_read_once() {
    let mut scene = Scene::Lobby(MainSceneContext::new(1));
    scene.user_input(release(50, 340));
    assert!(matches!(scene.switch_context(), Some(Scene::Room(_))));
    assert!(scene.switch_context().is_none());
    assert!(scene.switch_context().is_none());
}

#[test]
fn scene_without_token_hands_out_nothing() {
    let mut lobby = Scene::Lobby(MainSceneContext::new(1));
    assert!(lobby.switch_context().is_none());
    let mut room = Scene::Room(RoomSceneContext::new());
    assert!(room.switch_context().is_none());
}

#[test]
fn hand_off_replaces_the_lobby_by_the_room() {
    let mut scene = Scene::Lobby(MainSceneContext::new(2));
    assert!(!scene.hand_off());
    assert!(matches!(scene, Scene::Lobby(_)));
    scene.user_input(release(150, 340));
    assert!(scene.hand_off());
    assert!(matches!(scene, Scene::Room(_)));
    assert!(!scene.hand_off());
    assert!(matches!(scene, Scene::Room(_)));
}

#[test]
fn scene_passes_everything_on_to_the_lobby() {
    let mut scene = Scene::Lobby(lobby_with_buffers(2));
    assert!(scene.update(Some(ServerMessage::RoomStatus { number: 2, is_active: true })).is_empty());
    let commands = scene.render();
    assert_eq!(commands.len(), 6);
    assert_eq!(commands[5], DrawCommand::Room { vao: 101 });
    assert_eq!(scene.user_input(release(150, 340)), vec![ClientAction::JoinRoom { number: 2 }]);
}

#[test]
fn scene_passes_everything_on_to_the_room() {
    let mut scene = Scene::Room(RoomSceneContext::new());
    assert!(scene.user_input(Event::MouseButtonDown { x: 300, y: 100, mouse_btn: MouseButton::Right }).is_empty());
    let actions = scene.update(None);
    assert_eq!(actions.len(), 1);
    assert!(matches!(actions[0], ClientAction::Drag { dx: 0, dy: 100, .. }));
    assert_eq!(
        scene.render(),
        vec![DrawCommand::Clear, DrawCommand::UseProgram(Program::Shape), DrawCommand::Avatar]
    );
}

#[test]
fn controller_connects_at_the_start_and_disconnects_at_the_end() {
    let (controller, actions) = SceneController::new(Scene::Lobby(MainSceneContext::new(1)));
    assert_eq!(actions, vec![ClientAction::Connect]);
    assert!(!controller.exit());
    assert!(matches!(controller.active(), Scene::Lobby(_)));
    assert_eq!(controller.shutdown(), vec![ClientAction::Disconnect]);
}

#[test]
fn frame_shows_what_the_network_brought_in_it() {
    let (mut controller, _) = SceneController::new(Scene::Lobby(lobby_with_buffers(2)));
    let frame = controller.begin_frame(None);
    assert!(frame.actions.is_empty());
    assert_eq!(frame.commands.len(), 5);
    let end = controller.end_frame(None);
    assert!(end.actions.is_empty());
    assert!(!end.switched);
    let frame = controller.begin_frame(Some(ServerMessage::ServerOn));
    assert!(frame.actions.is_empty());
    assert_eq!(frame.commands.len(), 7);
    assert_eq!(frame.commands[5], DrawCommand::Room { vao: 100 });
    assert_eq!(frame.commands[6], DrawCommand::Room { vao: 101 });
}

#[test]
fn scenes_change_at_the_end_of_the_frame() {
    let (mut controller, _) = SceneController::new(Scene::Lobby(MainSceneContext::new(2)));
    controller.begin_frame(None);
    assert!(matches!(controller.active(), Scene::Lobby(_)));
    let end = controller.end_frame(Some(release(150, 340)));
    assert_eq!(end.actions, vec![ClientAction::JoinRoom { number: 2 }]);
    assert!(end.switched);
    assert!(matches!(controller.active(), Scene::Room(_)));
    let frame = controller.begin_frame(Some(ServerMessage::ServerOn));
    assert!(frame.actions.is_empty());
    assert_eq!(
        frame.commands,
        vec![DrawCommand::Clear, DrawCommand::UseProgram(Program::Shape), DrawCommand::Avatar]
    );
    let end = controller.end_frame(Some(release(150, 340)));
    assert!(end.actions.is_empty());
    assert!(!end.switched);
    assert!(matches!(controller.active(), Scene::Room(_)));
}

#[test]
fn release_outside_the_rooms_keeps_the_lobby() {
    let (mut controller, _) = SceneController::new(Scene::Lobby(MainSceneContext::new(2)));
    controller.begin_frame(None);
    let end = controller.end_frame(Some(release(115, 340)));
    assert!(end.actions.is_empty());
    assert!(!end.switched);
    assert!(matches!(controller.active(), Scene::Lobby(_)));
    let end = controller.end_frame(None);
    assert!(end.actions.is_empty());
    assert!(!end.switched);
    assert!(matches!(controller.active(), Scene::Lobby(_)));
}

#[test]
fn drag_in_the_room_through_the_controller() {
    let (mut controller, _) = SceneController::new(Scene::Room(RoomSceneContext::new()));
    controller.begin_frame(None);
    controller.end_frame(Some(Event::MouseButtonDown { x: 290, y: 200, mouse_btn: MouseButton::Right }));
    let frame = controller.begin_frame(None);
    assert_eq!(frame.actions.len(), 1);
    assert!(matches!(frame.actions[0], ClientAction::Drag { dx: -10, dy: 0, .. }));
    controller.end_frame(Some(Event::MouseButtonUp { x: 290, y: 200, mouse_btn: MouseButton::Right }));
    assert_eq!(controller.begin_frame(None).actions, vec![ClientAction::StopMove]);
    controller.end_frame(None);
    assert!(controller.begin_frame(None).actions.is_empty());
}

#[test]
fn quit_is_noted_and_kept() {
    let (mut controller, _) = SceneController::new(Scene::Lobby(MainSceneContext::new(1)));
    controller.begin_frame(None);
    assert!(controller.end_frame(Some(Event::Other)).actions.is_empty());
    assert!(!controller.exit());
    assert!(controller.end_frame(Some(Event::Quit)).actions.is_empty());
    assert!(controller.exit());
    controller.begin_frame(Some(ServerMessage::ServerOn));
    controller.end_frame(Some(release(50, 340)));
    controller.end_frame(None);
    assert!(controller.exit());
}

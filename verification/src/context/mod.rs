//! The scenes of the client and what they have in common.

pub mod main_scene_context;
pub mod room_scene_context;
pub mod scene_context;

pub use self::main_scene_context::{LobbyState, MainSceneContext};
pub use self::room_scene_context::{RoomSceneContext, RoomState};
pub use self::scene_context::{Scene, SceneContext, SceneState};

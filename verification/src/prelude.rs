//! The items that a game using the controller needs, in one place.

pub use crate::bindings::KeyBindings;
pub use crate::bindings::LookAction;
pub use crate::bindings::MoveAction;
pub use crate::cursor::cursor_grab;
pub use crate::cursor::initial_grab_cursor;
pub use crate::cursor::initial_grab_on_flycam_spawn;
pub use crate::cursor::toggle_grab_cursor;
pub use crate::look::look_axes;
pub use crate::look::player_look;
pub use crate::look::LookAxes;
pub use crate::look::LookInput;
pub use crate::look::LookMode;
pub use crate::movement::move_axes;
pub use crate::movement::player_move;
pub use crate::movement::MoveAxes;
pub use crate::plugin::NoCameraPlayerPlugin;
pub use crate::plugin::PlayerPlugin;
pub use crate::plugin::Config;
pub use crate::plugin::Schedule;
pub use crate::plugin::Step;
pub use crate::plugin::System;
pub use crate::window::WindowNotFound;

//! A snake game engine: grid geometry, the snake's movement and collision
//! rules, food and score, and the menu state machine. Drawing and keyboard
//! polling are left to the caller, who feeds key codes in and draws what the
//! `display` functions hand back.

pub mod game;
pub mod game_window;
pub mod keys;
pub mod snake;
pub mod text;
pub mod utils;
pub mod window_component;

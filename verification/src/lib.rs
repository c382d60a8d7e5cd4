//! A grid snake game: the board, the snake's state, and the rules that move
//! it.
//!
//! A driver owns one [`state::GameState`], hands every key press to
//! [`state::GameState::on_key`] and the time of every frame to
//! [`state::GameState::tick`], and stops when a tick reports the end of the
//! game. [`render`] tells a drawing layer what a state looks like.

pub mod food;
pub mod geometry;
pub mod input;
pub mod render;
pub mod state;
pub mod tick;

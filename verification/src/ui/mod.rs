pub mod app;
pub mod board;
pub mod geometry;
pub mod controls;
pub mod draw;
pub mod game_view;
pub mod layout;
pub mod lobby;
pub mod move_input;
pub mod output;
pub mod sprites;
pub mod terminal;

pub use app::{AppView, GameOverReason};
pub use controls::GameControl;
pub use lobby::LobbyView;
pub use sprites::{SpriteColumn, SpriteRow};

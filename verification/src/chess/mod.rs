pub mod rules;
pub mod types;
pub mod game;

pub use game::GameResult;
pub use types::{Color, Role, Square};

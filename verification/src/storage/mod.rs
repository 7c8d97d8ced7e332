pub mod game_history;

pub use game_history::GameRecord;

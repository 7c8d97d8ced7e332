pub mod game_session;
pub mod matchmaking;
pub mod session_manager;

pub use game_session::{DrawOfferState, GameSession};
pub use matchmaking::Matchmaking;
pub use session_manager::{MatchInfo, PlayerState};

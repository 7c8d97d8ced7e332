use vstd::prelude::*;

use crate::chess::game::{Game, GameView};
use crate::text::{decimal, decimal_chars, prefixed};

verus! {

/// Identifier of one connected SSH session.
#[derive(Debug, Clone, Copy, PartialEq, Eq, Hash, Structural)]
pub struct SessionId(pub u64);

/// A fresh random number for a new session identifier.
///
/// Calls `rand::random::<u64>()`, drawn from the thread-local generator.
/// Nothing is promised of the value.
#[verifier::external_body]
fn random_session_number() -> (n: u64) {
    rand::random::<u64>()
}

impl SessionId {
    /// A new session identifier, drawn at random from every `u64`: nothing
    /// is promised of it, and two draws may coincide. Connections get
    /// theirs from a [`SessionCounter`], which never repeats one.
    pub fn new() -> (id: SessionId) {
        SessionId(random_session_number())
    }

    /// How a session is shown: `session-` and its number.
    pub open spec fn spec_display(self) -> Seq<char> {
        "session-"@ + decimal(self.0 as nat)
    }

    /// The text shown for a session without a user name, such as `session-7`.
    pub fn to_text(&self) -> (s: String)
        ensures
            s@ == self.spec_display(),
    {
        let digits = decimal_chars(self.0);
        prefixed("session-", digits.as_slice())
    }
}

/// Hands out session identifiers in the order in which connections come,
/// counting up from 1: each one handed out is larger than every one before
/// it, so none is handed out twice.
pub struct SessionCounter {
    next: u64,
}

impl SessionCounter {
    /// The number the next identifier gets.
    pub closed spec fn next_number(&self) -> u64 {
        self.next
    }

    /// A counter that starts at 1.
    pub fn new() -> (c: SessionCounter)
        ensures
            c.next_number() == 1,
    {
        SessionCounter { next: 1 }
    }

    /// The next identifier, or `None` once the numbers have run out.
    pub fn issue(&mut self) -> (id: Option<SessionId>)
        ensures
            old(self).next_number() < u64::MAX ==> id == Some(SessionId(old(self).next_number()))
                && final(self).next_number() == old(self).next_number() + 1,
            old(self).next_number() == u64::MAX ==> id is None && final(self).next_number() == u64::MAX,
    {
        if self.next == u64::MAX {
            return None;
        }
        let id = SessionId(self.next);
        self.next = self.next + 1;
        Some(id)
    }
}

/// A message from the game server to one player.
pub enum GameEvent {
    /// An opponent was found.
    MatchFound { game_id: u64, opponent_name: String, is_white: bool },
    /// A move was played, or the game ended (with the reason).
    StateUpdated { game_id: u64, game: Game, finished_reason: Option<String> },
    /// The opponent offers a draw.
    DrawOffered { game_id: u64 },
}

/// The value of a [`GameEvent`].
pub enum EventView {
    MatchFound { game_id: u64, opponent_name: Seq<char>, is_white: bool },
    StateUpdated { game_id: u64, game: GameView, finished_reason: Option<Seq<char>> },
    DrawOffered { game_id: u64 },
}

impl View for GameEvent {
    type V = EventView;

    open spec fn view(&self) -> EventView {
        match self {
            GameEvent::MatchFound { game_id, opponent_name, is_white } => EventView::MatchFound {
                game_id: *game_id,
                opponent_name: opponent_name@,
                is_white: *is_white,
            },
            GameEvent::StateUpdated { game_id, game, finished_reason } => EventView::StateUpdated {
                game_id: *game_id,
                game: game@,
                finished_reason: match finished_reason {
                    Some(r) => Some(r@),
                    None => None,
                },
            },
            GameEvent::DrawOffered { game_id } => EventView::DrawOffered { game_id: *game_id },
        }
    }
}

} // verus!

verus! {

/// Size of a client's terminal in character cells.
#[derive(Debug, Clone, Copy, PartialEq, Eq, Structural)]
pub struct TerminalSize {
    pub width: u32,
    pub height: u32,
}

impl Default for TerminalSize {
    /// The classic 80x24 terminal.
    fn default() -> (s: TerminalSize)
        ensures
            s.width == 80 && s.height == 24,
    {
        TerminalSize { width: 80, height: 24 }
    }
}

/// What a connection reports to its session.
pub enum SessionEvent {
    Data(Vec<u8>),
    Resize(TerminalSize),
    Disconnect,
}


/// One SSH connection: its identifier, the user name it logged in with, its
/// terminal's size, and what the connection has reported and the session
/// has not yet read, oldest first.
pub struct Session {
    pub id: SessionId,
    pub username: Option<String>,
    pub terminal_size: TerminalSize,
    pub events: Vec<SessionEvent>,
}

impl Session {
    /// A new connection with a fresh identifier, no user name, an 80x24
    /// terminal and nothing reported.
    pub fn new() -> (s: Session)
        ensures
            s.username is None,
            s.terminal_size == (TerminalSize { width: 80, height: 24 }),
            s.events@.len() == 0,
    {
        Session {
            id: SessionId::new(),
            username: None,
            terminal_size: TerminalSize { width: 80, height: 24 },
            events: Vec::new(),
        }
    }

    /// Notes the terminal's new size.
    pub fn set_terminal_size(&mut self, width: u32, height: u32)
        ensures
            final(self).terminal_size == (TerminalSize { width, height }),
            final(self).id == old(self).id,
            final(self).username == old(self).username,
            final(self).events == old(self).events,
    {
        self.terminal_size = TerminalSize { width, height };
    }
}

impl Default for Session {
    fn default() -> (s: Session)
        ensures
            s.username is None,
            s.terminal_size == (TerminalSize { width: 80, height: 24 }),
            s.events@.len() == 0,
    {
        Session::new()
    }
}

} // verus!

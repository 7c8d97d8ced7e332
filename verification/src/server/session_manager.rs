//! The server's view of connected players, the matchmaking queue, the games
//! in progress and the archive of finished games.
//!
//! Messages for players are not sent from here: they are queued, one per
//! recipient that listens for them, and the embedding application takes them
//! with [`SessionManager::take_events`] and delivers them.
use vstd::prelude::*;

use std::collections::HashMap;
use vstd::std_specs::iter::IteratorSpec;

use super::game_session::{outcome_of, DrawOfferState, GameSession, SessionView};
use super::matchmaking::{without, Matchmaking};
use crate::chess::game::{settled_result, texts_of, Game, GameResult, GameView};
use crate::chess::types::Color;
use crate::ui::app::winner_of;
use crate::chess::rules::{spec_facts, spec_legal_moves};
use crate::ssh::session::{EventView, GameEvent, SessionId, TerminalSize};
use crate::storage::game_history::{ids_of, spec_next_id, GameHistory, GameRecord};

verus! {

broadcast use vstd::std_specs::hash::group_hash_axioms;

/// The two players of a game and the names they are shown under.
pub struct MatchInfo {
    pub game_id: u64,
    pub white_id: SessionId,
    pub black_id: SessionId,
    pub white_name: String,
    pub black_name: String,
}

/// What a connected player is doing.
#[derive(Debug, Clone, Copy, PartialEq, Eq, Structural)]
pub enum PlayerState {
    Idle,
    InQueue,
    Playing(u64),
    Spectating,
}

/// A connected player.
pub struct PlayerSession {
    pub id: SessionId,
    pub username: Option<String>,
    pub state: PlayerState,
    pub terminal_size: TerminalSize,
    /// Whether the player listens for game messages.
    pub subscribed: bool,
}

/// The name a player is shown under: the user name, or else the session.
pub open spec fn name_in(sessions: Map<u64, PlayerSession>, id: SessionId) -> Seq<char> {
    if sessions.contains_key(id.0) && sessions[id.0].username is Some {
        sessions[id.0].username->Some_0@
    } else {
        id.spec_display()
    }
}

/// The sessions with one player's state replaced (when the player is known).
pub open spec fn with_state(sessions: Map<u64, PlayerSession>, id: SessionId, st: PlayerState) -> Map<
    u64,
    PlayerSession,
> {
    if sessions.contains_key(id.0) {
        sessions.insert(id.0, PlayerSession { state: st, ..sessions[id.0] })
    } else {
        sessions
    }
}

/// The message queue after a message for `id`: kept only when `id` listens.
pub open spec fn notify(
    sessions: Map<u64, PlayerSession>,
    out: Seq<(SessionId, EventView)>,
    id: SessionId,
    ev: EventView,
) -> Seq<(SessionId, EventView)> {
    if sessions.contains_key(id.0) && sessions[id.0].subscribed {
        out.push((id, ev))
    } else {
        out
    }
}

/// How a result is written in the archive.
pub open spec fn result_text(r: GameResult) -> Seq<char> {
    match r {
        GameResult::WhiteWins | GameResult::BlackResigned => "1-0"@,
        GameResult::BlackWins | GameResult::WhiteResigned => "0-1"@,
        GameResult::Draw => "1/2-1/2"@,
        GameResult::Ongoing => "*"@,
    }
}

/// `r` archives game `gid`, played as `g` between players shown as `white`
/// and `black`, ended for `reason` (the time of the record aside).
pub open spec fn archives(
    r: GameRecord,
    gid: u64,
    g: GameView,
    white: Seq<char>,
    black: Seq<char>,
    reason: Seq<char>,
) -> bool {
    &&& r.id == gid
    &&& r.white_player@ == white
    &&& r.black_player@ == black
    &&& r.result@ == result_text(g.result)
    &&& r.reason@ == reason
    &&& texts_of(r.moves@) == g.sans
    &&& r.final_fen@ == g.fen
}

/// Whether a game has ended, by its result or by its position.
pub open spec fn game_over(g: GameView) -> bool {
    g.result != GameResult::Ongoing || spec_legal_moves(g.fen).len() == 0 || (spec_facts(g.fen) matches Some(
        f,
    ) && f.insufficient_material)
}

/// The archive writes a result as the winner it names: "1-0" exactly when
/// White won (by mate or by Black's resignation), "0-1" exactly when Black
/// won, "1/2-1/2" exactly for a draw, and "*" for a game still going on.
pub proof fn lemma_result_text_names_the_winner(r: GameResult)
    ensures
        (result_text(r) == "1-0"@) == (winner_of(r) == Some(Some(Color::White))),
        (result_text(r) == "0-1"@) == (winner_of(r) == Some(Some(Color::Black))),
        (result_text(r) == "1/2-1/2"@) == (winner_of(r) == Some(None::<Color>)),
        (result_text(r) == "*"@) == (winner_of(r) is None),
{
    reveal_strlit("1-0");
    reveal_strlit("0-1");
    reveal_strlit("1/2-1/2");
    reveal_strlit("*");
    assert("1-0"@[0] != "0-1"@[0]);
    assert("1-0"@[1] != "1/2-1/2"@[1]);
    assert("0-1"@[0] != "1/2-1/2"@[0]);
    assert("*"@.len() != "1-0"@.len() && "*"@.len() != "1/2-1/2"@.len());
}

/// A resignation is archived as a loss for the player who resigned: when
/// Black resigns the record reads "1-0", when White resigns "0-1".
pub proof fn lemma_resignation_archived_as_loss(
    before: SessionManager,
    after: SessionManager,
    id: SessionId,
    gid: u64,
    r: Result<(), String>,
)
    requires
        resign_game_done(before, after, id, gid, r),
        before.games().contains_key(gid),
        before.games()[gid].player_color(id) is Some,
    ensures
        after.archive().records().last().result@ == if before.games()[gid].player_color(id) == Some(Color::White) {
            "0-1"@
        } else {
            "1-0"@
        },
{
}

/// A game a position ended is over by checkmate exactly when the side to
/// move is in check with no legal move, and by stalemate exactly when it is
/// not in check and has none; the reason given agrees with the result the
/// position settles (a win for the mating side, a draw for stalemate).
pub proof fn lemma_end_reason_names_the_end(g: GameView, prior: GameResult)
    requires
        spec_legal_moves(g.fen).len() == 0,
        spec_facts(g.fen) is Some,
    ensures
        (end_reason(g) == "Checkmate"@) == spec_facts(g.fen)->Some_0.in_check,
        (end_reason(g) == "Stalemate"@) == !spec_facts(g.fen)->Some_0.in_check,
        (end_reason(g) == "Checkmate"@) == (settled_result(g.fen, prior) == GameResult::WhiteWins
            || settled_result(g.fen, prior) == GameResult::BlackWins),
        (end_reason(g) == "Stalemate"@) == (settled_result(g.fen, prior) == GameResult::Draw),
{
    reveal_strlit("Checkmate");
    reveal_strlit("Stalemate");
    assert("Checkmate"@[0] != "Stalemate"@[0]);
}

/// A game that still has legal moves but ended by its position ended for
/// want of mating material, not by mate or stalemate.
pub proof fn lemma_end_reason_with_moves_left(g: GameView)
    requires
        spec_legal_moves(g.fen).len() > 0,
    ensures
        end_reason(g) == "Insufficient material"@,
        end_reason(g) != "Checkmate"@ && end_reason(g) != "Stalemate"@,
{
    reveal_strlit("Checkmate");
    reveal_strlit("Stalemate");
    reveal_strlit("Insufficient material");
    assert("Insufficient material"@[0] != "Checkmate"@[0] && "Insufficient material"@[0] != "Stalemate"@[0]);
}

/// Why a position ended a game.
pub open spec fn end_reason(g: GameView) -> Seq<char> {
    if spec_legal_moves(g.fen).len() == 0 && (spec_facts(g.fen) matches Some(f) && f.in_check) {
        "Checkmate"@
    } else if spec_legal_moves(g.fen).len() == 0 && (spec_facts(g.fen) matches Some(f) && !f.in_check) {
        "Stalemate"@
    } else {
        "Insufficient material"@
    }
}

/// `after` is `before` with one more record, which archives game `gid`.
pub open spec fn archived_one(
    before: Seq<GameRecord>,
    after: Seq<GameRecord>,
    gid: u64,
    g: GameView,
    white: Seq<char>,
    black: Seq<char>,
    reason: Seq<char>,
) -> bool {
    &&& after.len() == before.len() + 1
    &&& after.drop_last() == before
    &&& archives(after.last(), gid, g, white, black, reason)
}

/// The text of an optional message.
pub open spec fn opt_text(o: Option<String>) -> Option<Seq<char>> {
    match o {
        Some(s) => Some(s@),
        None => None,
    }
}

/// Each player is filed under its own session number.
pub open spec fn keyed_by_id(sessions: Map<u64, PlayerSession>) -> bool {
    forall|k: u64| #[trigger] sessions.contains_key(k) ==> sessions[k].id.0 == k
}

/// Every game in progress has an ID below `next` that is not archived.
pub open spec fn fresh_games(games: Map<u64, SessionView>, next: u64, records: Seq<GameRecord>) -> bool {
    forall|k: u64| #[trigger] games.contains_key(k) ==> k < next && !ids_of(records).contains(k)
}

/// Every archived ID is below `next`, unless `next` is the last ID.
pub open spec fn archived_below(records: Seq<GameRecord>, next: u64) -> bool {
    next < u64::MAX ==> forall|i: int| 0 <= i < records.len() ==> (#[trigger] records[i]).id < next
}

/// Connected players, the queue of players waiting for a game, the games in
/// progress and the finished ones.
pub struct SessionManager {
    sessions: HashMap<u64, PlayerSession>,
    queue: Matchmaking,
    games: HashMap<u64, GameSession>,
    next_game_id: u64,
    history: GameHistory,
    outbox: Vec<(SessionId, GameEvent)>,
}

impl SessionManager {
    /// The players, by session number.
    pub closed spec fn sessions(&self) -> Map<u64, PlayerSession> {
        self.sessions@
    }

    /// The players waiting for a game, longest waiting first.
    pub closed spec fn queue(&self) -> Seq<SessionId> {
        self.queue@
    }

    /// The games in progress, by game ID.
    pub closed spec fn games(&self) -> Map<u64, SessionView> {
        views(self.games@)
    }

    /// The ID the next game will take.
    pub closed spec fn next_game_id(&self) -> u64 {
        self.next_game_id
    }

    /// The archive of finished games.
    pub closed spec fn archive(&self) -> GameHistory {
        self.history
    }

    /// The messages waiting to be delivered, oldest first.
    pub closed spec fn outbox(&self) -> Seq<(SessionId, EventView)> {
        self.outbox@.map_values(|p: (SessionId, GameEvent)| (p.0, p.1@))
    }

    /// Each player is filed under its own number; nobody waits twice; every
    /// game in progress has an ID below the next one and none that is
    /// archived; every archived ID is below the next one, until IDs run out.
    pub open spec fn wf(&self) -> bool {
        &&& keyed_by_id(self.sessions())
        &&& self.queue().no_duplicates()
        &&& self.archive().wf()
        &&& fresh_games(self.games(), self.next_game_id(), self.archive().records())
        &&& archived_below(self.archive().records(), self.next_game_id())
    }

    /// A server with no players, no games and an empty archive in memory.
    pub fn new() -> (m: SessionManager)
        ensures
            m.wf(),
            m.sessions().len() == 0,
            m.queue().len() == 0,
            m.games().len() == 0,
            m.next_game_id() == 1,
            m.archive().records().len() == 0,
            m.outbox().len() == 0,
    {
        Self::with_history(GameHistory::new())
    }

    /// A server that continues an archive: new games take IDs above every
    /// archived one.
    pub fn with_history(history: GameHistory) -> (m: SessionManager)
        requires
            history.wf(),
        ensures
            m.wf(),
            m.sessions() == Map::<u64, PlayerSession>::empty(),
            m.queue() == Seq::<SessionId>::empty(),
            m.games() == Map::<u64, SessionView>::empty(),
            m.next_game_id() == spec_next_id(history.records()),
            m.archive() == history,
            m.outbox() == Seq::<(SessionId, EventView)>::empty(),
    {
        let next = history.next_id();
        proof {
            if next < u64::MAX && history.records().len() > 0 {
                crate::storage::game_history::lemma_next_id_above_all(history.records());
            }
        }
        let m = SessionManager {
            sessions: HashMap::new(),
            queue: Matchmaking::new(),
            games: HashMap::new(),
            next_game_id: next,
            history,
            outbox: Vec::new(),
        };
        proof {
            assert(m.outbox() =~= Seq::<(SessionId, EventView)>::empty());
        }
        m
    }

    /// A newly connected player, idle and not yet listening for messages.
    pub fn add_session(&mut self, id: SessionId, terminal_size: TerminalSize)
        requires
            old(self).wf(),
        ensures
            final(self).wf(),
            final(self).sessions() == old(self).sessions().insert(
                id.0,
                PlayerSession {
                    id: id,
                    username: None,
                    state: PlayerState::Idle,
                    terminal_size: terminal_size,
                    subscribed: false,
                },
            ),
            final(self).queue() == old(self).queue(),
            final(self).games() == old(self).games(),
            final(self).next_game_id() == old(self).next_game_id(),
            final(self).archive() == old(self).archive(),
            final(self).outbox() == old(self).outbox(),
    {
        let session = PlayerSession {
            id,
            username: None,
            state: PlayerState::Idle,
            terminal_size,
            subscribed: false,
        };
        self.sessions.insert(id.0, session);
    }

    /// The player now listens for game messages.
    pub fn register_game_event_channel(&mut self, id: SessionId)
        requires
            old(self).wf(),
        ensures
            final(self).wf(),
            final(self).sessions() == if old(self).sessions().contains_key(id.0) {
                old(self).sessions().insert(
                    id.0,
                    PlayerSession { subscribed: true, ..old(self).sessions()[id.0] },
                )
            } else {
                old(self).sessions()
            },
            final(self).queue() == old(self).queue(),
            final(self).games() == old(self).games(),
            final(self).next_game_id() == old(self).next_game_id(),
            final(self).archive() == old(self).archive(),
            final(self).outbox() == old(self).outbox(),
    {
        match self.sessions.remove(&id.0) {
            Some(mut s) => {
                s.subscribed = true;
                self.sessions.insert(id.0, s);
            },
            None => {},
        }
    }

    /// A player by session.
    pub fn get_session(&self, id: SessionId) -> (s: Option<&PlayerSession>)
        ensures
            s == if self.sessions().contains_key(id.0) {
                Some(&self.sessions()[id.0])
            } else {
                None
            },
    {
        self.sessions.get(&id.0)
    }

    /// Gives a player a user name.
    pub fn set_username(&mut self, id: SessionId, username: String)
        requires
            old(self).wf(),
        ensures
            final(self).wf(),
            final(self).sessions() == if old(self).sessions().contains_key(id.0) {
                old(self).sessions().insert(
                    id.0,
                    PlayerSession { username: Some(username), ..old(self).sessions()[id.0] },
                )
            } else {
                old(self).sessions()
            },
            final(self).queue() == old(self).queue(),
            final(self).games() == old(self).games(),
            final(self).next_game_id() == old(self).next_game_id(),
            final(self).archive() == old(self).archive(),
            final(self).outbox() == old(self).outbox(),
    {
        match self.sessions.remove(&id.0) {
            Some(mut s) => {
                s.username = Some(username);
                self.sessions.insert(id.0, s);
            },
            None => {},
        }
    }

    /// Sets what a player is doing.
    pub fn set_state(&mut self, id: SessionId, state: PlayerState)
        requires
            old(self).wf(),
        ensures
            final(self).wf(),
            final(self).sessions() == with_state(old(self).sessions(), id, state),
            final(self).queue() == old(self).queue(),
            final(self).games() == old(self).games(),
            final(self).next_game_id() == old(self).next_game_id(),
            final(self).archive() == old(self).archive(),
            final(self).outbox() == old(self).outbox(),
    {
        match self.sessions.remove(&id.0) {
            Some(mut s) => {
                s.state = state;
                self.sessions.insert(id.0, s);
            },
            None => {},
        }
    }

    /// How many players are connected.
    pub fn session_count(&self) -> (n: usize)
        ensures
            n == self.sessions().len(),
    {
        self.sessions.len()
    }

    /// How many players wait for a game.
    pub fn queue_size(&self) -> (n: usize)
        ensures
            n == self.queue().len(),
    {
        self.queue.queue_size()
    }

    /// The game a player is in.
    pub fn get_player_game_id(&self, session_id: SessionId) -> (g: Option<u64>)
        ensures
            g == (if self.sessions().contains_key(session_id.0) && self.sessions()[session_id.0].state is Playing {
                Some(self.sessions()[session_id.0].state->Playing_0)
            } else {
                None
            }),
    {
        match self.sessions.get(&session_id.0) {
            Some(s) => match s.state {
                PlayerState::Playing(gid) => Some(gid),
                _ => None,
            },
            None => None,
        }
    }

    /// The name a player is shown under.
    fn name_of(&self, id: SessionId) -> (s: String)
        ensures
            s@ == name_in(self.sessions(), id),
    {
        match self.sessions.get(&id.0) {
            Some(s) => match &s.username {
                Some(u) => u.clone(),
                None => id.to_text(),
            },
            None => id.to_text(),
        }
    }

    /// A game in progress.
    pub fn get_game(&self, game_id: u64) -> (g: Option<&GameSession>)
        ensures
            match g {
                Some(s) => self.games().contains_key(game_id) && s@ == self.games()[game_id],
                None => !self.games().contains_key(game_id),
            },
    {
        self.games.get(&game_id)
    }

    /// The players of a game in progress and their names.
    pub fn get_match_info(&self, game_id: u64) -> (info: Option<MatchInfo>)
        ensures
            match info {
                Some(i) => {
                    let g = self.games()[game_id];
                    &&& self.games().contains_key(game_id)
                    &&& i.game_id == game_id
                    &&& i.white_id == g.white_player
                    &&& i.black_id == g.black_player
                    &&& i.white_name@ == name_in(self.sessions(), g.white_player)
                    &&& i.black_name@ == name_in(self.sessions(), g.black_player)
                },
                None => !self.games().contains_key(game_id),
            },
    {
        match self.games.get(&game_id) {
            Some(game) => {
                let white_name = self.name_of(game.white_player);
                let black_name = self.name_of(game.black_player);
                Some(
                    MatchInfo {
                        game_id,
                        white_id: game.white_player,
                        black_id: game.black_player,
                        white_name,
                        black_name,
                    },
                )
            },
            None => None,
        }
    }

    /// Queues a message for a player, when the player listens.
    fn send_event(&mut self, id: SessionId, event: GameEvent)
        ensures
            final(self).sessions() == old(self).sessions(),
            final(self).queue() == old(self).queue(),
            final(self).games() == old(self).games(),
            final(self).next_game_id() == old(self).next_game_id(),
            final(self).archive() == old(self).archive(),
            final(self).outbox() == notify(old(self).sessions(), old(self).outbox(), id, event@),
    {
        let listens = match self.sessions.get(&id.0) {
            Some(s) => s.subscribed,
            None => false,
        };
        if listens {
            let ghost before = self.outbox@;
            let ghost ev = (id, event);
            self.outbox.push((id, event));
            proof {
                assert(self.outbox@ == before.push(ev));
                assert(self.outbox() =~= old(self).outbox().push((id, ev.1@)));
            }
        }
    }

    /// Hands over the queued messages, oldest first, and empties the queue.
    pub fn take_events(&mut self) -> (events: Vec<(SessionId, GameEvent)>)
        requires
            old(self).wf(),
        ensures
            final(self).wf(),
            events@.map_values(|p: (SessionId, GameEvent)| (p.0, p.1@)) == old(self).outbox(),
            final(self).outbox().len() == 0,
            final(self).sessions() == old(self).sessions(),
            final(self).queue() == old(self).queue(),
            final(self).games() == old(self).games(),
            final(self).next_game_id() == old(self).next_game_id(),
            final(self).archive() == old(self).archive(),
    {
        let mut events: Vec<(SessionId, GameEvent)> = Vec::new();
        std::mem::swap(&mut events, &mut self.outbox);
        proof {
            assert(self.outbox() =~= Seq::<(SessionId, EventView)>::empty());
        }
        events
    }

    /// Puts an idle player who is not waiting yet at the back of the queue.
    pub fn join_queue(&mut self, id: SessionId)
        requires
            old(self).wf(),
        ensures
            final(self).wf(),
            join_queue_done(*old(self), *final(self), id),
    {
        let idle = match self.sessions.get(&id.0) {
            Some(s) => s.state == PlayerState::Idle,
            None => false,
        };
        if idle && self.queue.queue_position(id).is_none() {
            self.queue.add_to_queue(id);
            self.set_state(id, PlayerState::InQueue);
        }
    }

    /// Takes a player out of the queue; a waiting player becomes idle.
    pub fn leave_queue(&mut self, id: SessionId)
        requires
            old(self).wf(),
        ensures
            final(self).wf(),
            leave_queue_done(*old(self), *final(self), id),
    {
        self.queue.remove_from_queue(id);
        let waiting = match self.sessions.get(&id.0) {
            Some(s) => s.state == PlayerState::InQueue,
            None => false,
        };
        if waiting {
            self.set_state(id, PlayerState::Idle);
        }
    }

    /// Tells both players of a game in progress how it stands.
    fn publish_state(&mut self, game_id: u64, finished_reason: Option<String>)
        ensures
            final(self).sessions() == old(self).sessions(),
            final(self).queue() == old(self).queue(),
            final(self).games() == old(self).games(),
            final(self).next_game_id() == old(self).next_game_id(),
            final(self).archive() == old(self).archive(),
            final(self).outbox() == if old(self).games().contains_key(game_id) {
                state_sent(*old(self), game_id, old(self).games()[game_id].game, opt_text(finished_reason))
            } else {
                old(self).outbox()
            },
    {
        match self.games.get(&game_id) {
            Some(session) => {
                let white = session.white_player;
                let black = session.black_player;
                let for_white = session.game.clone();
                let for_black = session.game.clone();
                let reason_white = clone_text(&finished_reason);
                self.send_event(
                    white,
                    GameEvent::StateUpdated { game_id, game: for_white, finished_reason: reason_white },
                );
                self.send_event(
                    black,
                    GameEvent::StateUpdated { game_id, game: for_black, finished_reason },
                );
            },
            None => {},
        }
    }

    /// Ends a game: it leaves the games in progress, its record (stamped
    /// `timestamp`) goes to the archive, and both players become idle.
    fn end_game_at(&mut self, game_id: u64, reason: &str, timestamp: u64) -> (r: Option<(SessionId, SessionId)>)
        requires
            old(self).wf(),
        ensures
            final(self).wf(),
            final(self).outbox() == old(self).outbox(),
            match r {
                Some((w, b)) => {
                    &&& old(self).games().contains_key(game_id)
                    &&& w == old(self).games()[game_id].white_player
                    &&& b == old(self).games()[game_id].black_player
                    &&& game_ended(*old(self), *final(self), game_id, old(self).games()[game_id].game, reason@)
                    &&& final(self).archive().records().last().timestamp == timestamp
                },
                None => {
                    &&& !old(self).games().contains_key(game_id)
                    &&& unchanged(*old(self), *final(self))
                },
            },
    {
        let info = match self.get_match_info(game_id) {
            Some(i) => i,
            None => return None,
        };
        let ghost before = *self;
        let session = match self.games.remove(&game_id) {
            Some(g) => g,
            None => return None,
        };
        proof {
            lemma_views_remove(before.games@, game_id);
        }
        let result = match session.game.result() {
            GameResult::WhiteWins | GameResult::BlackResigned => "1-0",
            GameResult::BlackWins | GameResult::WhiteResigned => "0-1",
            GameResult::Draw => "1/2-1/2",
            GameResult::Ongoing => "*",
        };
        let record = GameRecord {
            id: game_id,
            white_player: info.white_name,
            black_player: info.black_name,
            result: String::from_str(result),
            reason: String::from_str(reason),
            moves: copy_texts(session.game.san_history()),
            final_fen: session.game.fen(),
            timestamp,
        };
        let ghost rec = record;
        let ghost old_ids = ids_of(self.history.records());
        let _ = self.history.add_record(record);
        proof {
            assert(ids_of(self.history.records()) =~= old_ids.push(game_id));
            assert(self.history.records().drop_last() =~= before.archive().records());
            assert forall|k: u64| #[trigger] self.games().contains_key(k) implies k < self.next_game_id()
                && !ids_of(self.archive().records()).contains(k) by {
                assert(before.games().contains_key(k));
                if ids_of(self.archive().records()).contains(k) {
                    let j = choose|j: int| 0 <= j < ids_of(self.archive().records()).len() && ids_of(
                        self.archive().records(),
                    )[j] == k;
                    if j < old_ids.len() {
                        assert(old_ids[j] == k);
                    }
                }
            }
            assert forall|i: int| 0 <= i < self.archive().records().len() && self.next_game_id() < u64::MAX
                implies (#[trigger] self.archive().records()[i]).id < self.next_game_id() by {
                if i < before.archive().records().len() {
                    assert(self.archive().records()[i] == before.archive().records()[i]);
                }
            }
        }
        let white_id = session.white_player;
        let black_id = session.black_player;
        self.set_state(white_id, PlayerState::Idle);
        self.set_state(black_id, PlayerState::Idle);
        Some((white_id, black_id))
    }

    /// Ends a game now.
    fn end_game(&mut self, game_id: u64, reason: &str) -> (r: Option<(SessionId, SessionId)>)
        requires
            old(self).wf(),
        ensures
            final(self).wf(),
            final(self).outbox() == old(self).outbox(),
            match r {
                Some((w, b)) => {
                    &&& old(self).games().contains_key(game_id)
                    &&& w == old(self).games()[game_id].white_player
                    &&& b == old(self).games()[game_id].black_player
                    &&& game_ended(*old(self), *final(self), game_id, old(self).games()[game_id].game, reason@)
                },
                None => !old(self).games().contains_key(game_id) && unchanged(*old(self), *final(self)),
            },
    {
        self.end_game_at(game_id, reason, unix_now())
    }

    /// Starts a game between the two players who have waited longest; with
    /// `swap` the second of them plays White. Nothing happens while fewer than
    /// two wait, or once game IDs have run out.
    pub fn try_match_with(&mut self, swap: bool) -> (r: Option<u64>)
        requires
            old(self).wf(),
        ensures
            final(self).wf(),
            old(self).queue().len() < 2 || old(self).next_game_id() == u64::MAX ==> r is None && unchanged(
                *old(self),
                *final(self),
            ) && final(self).outbox() == old(self).outbox(),
            old(self).queue().len() >= 2 && old(self).next_game_id() < u64::MAX ==> r == Some(
                old(self).next_game_id(),
            ) && matched_as(*old(self), *final(self), swap),
    {
        if self.queue.queue_size() < 2 || self.next_game_id == u64::MAX {
            return None;
        }
        let ghost before = *self;
        let (player1, player2) = match self.queue.try_match() {
            Some(p) => p,
            None => return None,
        };
        let (white_id, black_id) = if swap {
            (player2, player1)
        } else {
            (player1, player2)
        };
        let game_id = self.next_game_id;
        proof {
            lemma_next_game_id_fresh(before);
        }
        self.next_game_id = game_id + 1;
        let game_session = GameSession::new(game_id, white_id, black_id);
        let ghost gs = game_session;
        self.games.insert(game_id, game_session);
        proof {
            lemma_views_insert(before.games@, game_id, gs);
        }
        let white_name = self.name_of(white_id);
        let black_name = self.name_of(black_id);
        self.set_state(white_id, PlayerState::Playing(game_id));
        self.set_state(black_id, PlayerState::Playing(game_id));
        self.send_event(
            white_id,
            GameEvent::MatchFound { game_id, opponent_name: black_name, is_white: true },
        );
        self.send_event(
            black_id,
            GameEvent::MatchFound { game_id, opponent_name: white_name, is_white: false },
        );
        Some(game_id)
    }

    /// Starts a game between the two players who have waited longest, the
    /// colours drawn at random.
    pub fn try_match(&mut self) -> (r: Option<u64>)
        requires
            old(self).wf(),
        ensures
            final(self).wf(),
            try_match_done(*old(self), *final(self), r),
    {
        let swap = coin_flip();
        let r = self.try_match_with(swap);
        proof {
            if r is Some {
                assert(matched_as(*old(self), *self, swap));
            }
        }
        r
    }

    /// A player disconnects: they leave the queue, a game they play is lost
    /// by them and ended, and they are forgotten. Returns that game's ID.
    pub fn remove_session(&mut self, id: SessionId) -> (r: Option<u64>)
        requires
            old(self).wf(),
        ensures
            final(self).wf(),
            r == (if old(self).sessions().contains_key(id.0) && old(self).sessions()[id.0].state is Playing {
                Some(old(self).sessions()[id.0].state->Playing_0)
            } else {
                None
            }),
            final(self).queue() == without(old(self).queue(), id),
            final(self).next_game_id() == old(self).next_game_id(),
            r is Some && old(self).games().contains_key(r->Some_0) ==> {
                let gid = r->Some_0;
                let s = old(self).games()[gid];
                let g = s.resigned_by(id);
                let ss = old(self).sessions();
                &&& final(self).games() == old(self).games().remove(gid)
                &&& archived_one(
                    old(self).archive().records(),
                    final(self).archive().records(),
                    gid,
                    g,
                    name_in(ss, s.white_player),
                    name_in(ss, s.black_player),
                    "Opponent disconnected"@,
                )
                &&& final(self).archive().persisted() == old(self).archive().persisted()
                &&& final(self).sessions() == with_state(
                    with_state(ss, s.white_player, PlayerState::Idle),
                    s.black_player,
                    PlayerState::Idle,
                ).remove(id.0)
                &&& final(self).outbox() == state_sent(*old(self), gid, g, Some("Opponent disconnected"@))
            },
            !(r is Some && old(self).games().contains_key(r->Some_0)) ==> {
                &&& final(self).games() == old(self).games()
                &&& final(self).archive() == old(self).archive()
                &&& final(self).sessions() == old(self).sessions().remove(id.0)
                &&& final(self).outbox() == old(self).outbox()
            },
    {
        self.queue.remove_from_queue(id);
        let game_id = self.get_player_game_id(id);
        match game_id {
            Some(gid) => {
                let ghost mid = *self;
                match self.games.remove(&gid) {
                    Some(mut session) => {
                        let _ = session.resign(id);
                        let ghost gs = session;
                        self.games.insert(gid, session);
                        proof {
                            lemma_views_remove(mid.games@, gid);
                            lemma_views_insert(mid.games@.remove(gid), gid, gs);
                            assert(mid.games@.contains_key(gid));
                            assert(self.games().remove(gid) =~= mid.games().remove(gid));
                            assert(self.games().dom() =~= mid.games().dom());
                        }
                    },
                    None => {},
                }
                assert forall|k: u64| #[trigger] self.games().contains_key(k) implies k
                    < self.next_game_id() && !ids_of(self.archive().records()).contains(k) by {
                    assert(mid.games().contains_key(k));
                    assert(old(self).games().contains_key(k));
                }
                self.finish_game(gid, "Opponent disconnected");
            },
            None => {},
        }
        self.sessions.remove(&id.0);
        game_id
    }

    /// A game in progress, to change in place.
    pub fn get_game_mut(&mut self, game_id: u64) -> (g: Option<&mut GameSession>)
        requires
            old(self).wf(),
        ensures
            final(self).sessions() == old(self).sessions(),
            final(self).queue() == old(self).queue(),
            final(self).next_game_id() == old(self).next_game_id(),
            final(self).archive() == old(self).archive(),
            final(self).outbox() == old(self).outbox(),
            match g {
                Some(s) => {
                    &&& old(self).games().contains_key(game_id)
                    &&& s@ == old(self).games()[game_id]
                    &&& final(self).games() == old(self).games().insert(game_id, final(s)@)
                },
                None => !old(self).games().contains_key(game_id) && final(self).games() == old(
                    self,
                ).games(),
            },
            final(self).games().dom() == old(self).games().dom(),
    {
        match self.games.entry(game_id) {
            std::collections::hash_map::Entry::Occupied(o) => Some(o.into_mut()),
            std::collections::hash_map::Entry::Vacant(_) => None,
        }
    }

    /// A player, to change in place.
    pub fn get_session_mut(&mut self, id: SessionId) -> (p: Option<&mut PlayerSession>)
        ensures
            final(self).queue() == old(self).queue(),
            final(self).games() == old(self).games(),
            final(self).next_game_id() == old(self).next_game_id(),
            final(self).archive() == old(self).archive(),
            final(self).outbox() == old(self).outbox(),
            match p {
                Some(s) => {
                    &&& old(self).sessions().contains_key(id.0)
                    &&& *s == old(self).sessions()[id.0]
                    &&& final(self).sessions() == old(self).sessions().insert(id.0, *final(s))
                },
                None => !old(self).sessions().contains_key(id.0) && final(self).sessions() == old(
                    self,
                ).sessions(),
            },
    {
        match self.sessions.entry(id.0) {
            std::collections::hash_map::Entry::Occupied(o) => Some(o.into_mut()),
            std::collections::hash_map::Entry::Vacant(_) => None,
        }
    }

    /// Plays a move typed by a player in a game in progress. The players are
    /// told the new position; a move that ends the game ends it.
    #[verifier::rlimit(40)]
    pub fn submit_move(&mut self, id: SessionId, game_id: u64, text: &str) -> (r: Result<(), String>)
        requires
            old(self).wf(),
        ensures
            final(self).wf(),
            submit_move_done(*old(self), *final(self), id, game_id, text@, r),
    {
        let ghost before = *self;
        let mut session = match self.games.remove(&game_id) {
            Some(s) => s,
            None => {
                proof {
                    lemma_views_remove(before.games@, game_id);
                    assert(self.games() =~= before.games());
                }
                return Err(String::from_str("Game is already over"));
            },
        };
        proof {
            lemma_views_remove(before.games@, game_id);
        }
        let played = session.play_move_text(id, text);
        match played {
            Err(e) => {
                let ghost gs = session;
                self.games.insert(game_id, session);
                proof {
                    lemma_views_insert(before.games@.remove(game_id), game_id, gs);
                    assert(self.games() =~= before.games());
                }
                return Err(e);
            },
            Ok(_) => {},
        }
        let over = session.game.is_game_over();
        let mate = session.game.is_checkmate();
        let stale = session.game.is_stalemate();
        let ghost gs = session;
        self.games.insert(game_id, session);
        proof {
            lemma_views_insert(before.games@.remove(game_id), game_id, gs);
            assert(self.games().remove(game_id) =~= before.games().remove(game_id));
            assert(self.games().dom() =~= before.games().dom());
            lemma_edit_keeps_wf(before, *self);
        }
        if over {
            let reason = if mate {
                "Checkmate"
            } else if stale {
                "Stalemate"
            } else {
                "Insufficient material"
            };
            self.finish_game(game_id, reason);
        } else {
            self.publish_state(game_id, None);
            proof {
                assert(self.games() =~= before.games().insert(game_id, gs@));
            }
        }
        Ok(())
    }

    /// A player resigns a game in progress, which ends it.
    pub fn resign_game(&mut self, id: SessionId, game_id: u64) -> (r: Result<(), String>)
        requires
            old(self).wf(),
        ensures
            final(self).wf(),
            resign_game_done(*old(self), *final(self), id, game_id, r),
    {
        let ghost before = *self;
        let mut session = match self.games.remove(&game_id) {
            Some(s) => s,
            None => {
                proof {
                    lemma_views_remove(before.games@, game_id);
                    assert(self.games() =~= before.games());
                }
                return Err(String::from_str("Game is already over"));
            },
        };
        proof {
            lemma_views_remove(before.games@, game_id);
        }
        let resigned = session.resign(id);
        let ghost gs = session;
        self.games.insert(game_id, session);
        proof {
            lemma_views_insert(before.games@.remove(game_id), game_id, gs);
            assert(self.games().remove(game_id) =~= before.games().remove(game_id));
            assert(self.games().dom() =~= before.games().dom());
            lemma_edit_keeps_wf(before, *self);
        }
        match resigned {
            Err(e) => {
                proof {
                    assert(self.games() =~= before.games());
                }
                Err(e)
            },
            Ok(()) => {
                self.finish_game(game_id, "Resignation");
                Ok(())
            },
        }
    }

    /// A player offers a draw in a game in progress, or accepts the
    /// opponent's offer, which ends the game.
    #[verifier::rlimit(40)]
    pub fn offer_draw(&mut self, id: SessionId, game_id: u64) -> (r: Result<(), String>)
        requires
            old(self).wf(),
        ensures
            final(self).wf(),
            offer_draw_done(*old(self), *final(self), id, game_id, r),
    {
        let ghost before = *self;
        let mut session = match self.games.remove(&game_id) {
            Some(s) => s,
            None => {
                proof {
                    lemma_views_remove(before.games@, game_id);
                    assert(self.games() =~= before.games());
                }
                return Err(String::from_str("Game is already over"));
            },
        };
        proof {
            lemma_views_remove(before.games@, game_id);
        }
        let offered = session.offer_draw(id);
        let over = session.game.is_game_over();
        let opponent = session.get_opponent(id);
        let ghost gs = session;
        self.games.insert(game_id, session);
        proof {
            lemma_views_insert(before.games@.remove(game_id), game_id, gs);
            assert(self.games().remove(game_id) =~= before.games().remove(game_id));
            assert(self.games().dom() =~= before.games().dom());
            lemma_edit_keeps_wf(before, *self);
        }
        match offered {
            Err(e) => {
                proof {
                    assert(self.games() =~= before.games());
                }
                return Err(e);
            },
            Ok(()) => {},
        }
        if over {
            self.finish_game(game_id, "Draw by agreement");
        } else {
            match opponent {
                Some(o) => self.send_event(o, GameEvent::DrawOffered { game_id }),
                None => {},
            }
            proof {
                assert(self.games() =~= before.games().insert(game_id, gs@));
            }
        }
        Ok(())
    }

    /// The archive of finished games.
    pub fn history(&self) -> (h: &GameHistory)
        ensures
            *h == self.archive(),
    {
        &self.history
    }

    /// Notes that the oldest archived game not yet on disk has been written.
    pub fn mark_history_persisted(&mut self)
        requires
            old(self).wf(),
        ensures
            final(self).wf(),
            final(self).archive().records() == old(self).archive().records(),
            final(self).archive().persisted() == if old(self).archive().persisted() < old(
                self,
            ).archive().records().len() {
                old(self).archive().persisted() + 1
            } else {
                old(self).archive().persisted()
            },
            final(self).sessions() == old(self).sessions(),
            final(self).queue() == old(self).queue(),
            final(self).games() == old(self).games(),
            final(self).next_game_id() == old(self).next_game_id(),
            final(self).outbox() == old(self).outbox(),
    {
        self.history.mark_persisted();
    }

    /// The server stops: every game in progress ends for "Server shutdown"
    /// and is archived (in no particular order); nobody is told.
    pub fn shutdown(&mut self)
        requires
            old(self).wf(),
        ensures
            final(self).wf(),
            shutdown_done(*old(self), *final(self)),
    {
        let ghost before = *self;
        let ids = game_ids(&self.games);
        let ghost ks = ids@;
        let ghost n0 = before.archive().records().len();
        let mut i: usize = 0;
        proof {
            assert(ks.take(0).to_set() =~= Set::<u64>::empty());
            assert(self.games() =~= before.games().remove_keys(Set::<u64>::empty()));
            assert(self.sessions() =~= all_idle(before.sessions(), before.games(), Set::<u64>::empty()));
            assert(self.archive().records().take(n0 as int) =~= before.archive().records());
        }
        while i < ids.len()
            invariant
                ids@ == ks,
                ks.to_set() == before.games().dom(),
                ks.no_duplicates(),
                i <= ks.len(),
                self.wf(),
                before.wf(),
                self.games() == before.games().remove_keys(ks.take(i as int).to_set()),
                self.sessions() == all_idle(before.sessions(), before.games(), ks.take(i as int).to_set()),
                self.queue() == before.queue(),
                self.next_game_id() == before.next_game_id(),
                self.outbox() == before.outbox(),
                self.archive().persisted() == before.archive().persisted(),
                n0 == before.archive().records().len(),
                self.archive().records().len() == n0 + i,
                self.archive().records().take(n0 as int) == before.archive().records(),
                forall|j: int|
                    0 <= j < i ==> #[trigger] archives(
                        self.archive().records()[n0 + j],
                        ks[j],
                        before.games()[ks[j]].game,
                        name_in(before.sessions(), before.games()[ks[j]].white_player),
                        name_in(before.sessions(), before.games()[ks[j]].black_player),
                        "Server shutdown"@,
                    ),
            decreases ks.len() - i,
        {
            let gid = ids[i];
            let ghost mid = *self;
            proof {
                assert(ks.to_set().contains(ks[i as int]));
                assert(!ks.take(i as int).to_set().contains(gid)) by {
                    if ks.take(i as int).to_set().contains(gid) {
                        let j = choose|j: int| 0 <= j < i && ks.take(i as int)[j] == gid;
                        assert(ks[j] == ks[i as int]);
                    }
                }
                assert(mid.games().contains_key(gid));
                assert(mid.games()[gid] == before.games()[gid]);
                lemma_idle_names(before.sessions(), before.games(), ks.take(i as int).to_set());
            }
            self.end_game(gid, "Server shutdown");
            proof {
                let s = before.games()[gid];
                assert(ks.take(i + 1).to_set() =~= ks.take(i as int).to_set().insert(gid)) by {
                    assert(ks.take(i + 1) =~= ks.take(i as int).push(gid));
                    ks.take(i as int).lemma_push_to_set_commute(gid);
                }
                assert(self.games() =~= before.games().remove_keys(ks.take(i + 1).to_set()));
                lemma_idle_step(before.sessions(), before.games(), ks.take(i as int).to_set(), gid);
                let rs = self.archive().records();
                assert(rs.drop_last() == mid.archive().records());
                assert(rs.take(n0 as int) =~= before.archive().records()) by {
                    assert forall|j: int| 0 <= j < n0 implies rs[j] == before.archive().records()[j] by {
                        assert(rs[j] == rs.drop_last()[j]);
                        assert(mid.archive().records().take(n0 as int)[j] == mid.archive().records()[j]);
                    }
                }
                assert forall|j: int| 0 <= j < i + 1 implies #[trigger] archives(
                    rs[n0 + j],
                    ks[j],
                    before.games()[ks[j]].game,
                    name_in(before.sessions(), before.games()[ks[j]].white_player),
                    name_in(before.sessions(), before.games()[ks[j]].black_player),
                    "Server shutdown"@,
                ) by {
                    if j < i {
                        assert(rs[n0 + j] == rs.drop_last()[n0 + j]);
                        assert(archives(
                            mid.archive().records()[n0 + j],
                            ks[j],
                            before.games()[ks[j]].game,
                            name_in(before.sessions(), before.games()[ks[j]].white_player),
                            name_in(before.sessions(), before.games()[ks[j]].black_player),
                            "Server shutdown"@,
                        ));
                    }
                }
            }
            i = i + 1;
        }
        proof {
            assert(ks.take(ks.len() as int) =~= ks);
            assert(self.games() =~= Map::<u64, SessionView>::empty());
        }
    }

    /// A player with the given user name, if one is connected.
    pub fn find_by_username(&self, username: &str) -> (p: Option<&PlayerSession>)
        ensures
            match p {
                Some(s) => {
                    &&& exists|k: u64| #[trigger]
                        self.sessions().contains_key(k) && self.sessions()[k] == *s
                    &&& s.username matches Some(u) && u@ == username@
                },
                None => forall|k: u64| #[trigger]
                    self.sessions().contains_key(k) ==> !(self.sessions()[k].username matches Some(u)
                        && u@ == username@),
            },
    {
        let keys = session_numbers(&self.sessions);
        let name = String::from_str(username);
        let mut i: usize = 0;
        while i < keys.len()
            invariant
                keys@.to_set() == self.sessions@.dom(),
                name@ == username@,
                i <= keys@.len(),
                forall|j: int|
                    0 <= j < i ==> !(#[trigger] self.sessions()[keys@[j]].username matches Some(u) && u@
                        == username@),
            decreases keys@.len() - i,
        {
            let k = keys[i];
            proof {
                assert(keys@.to_set().contains(keys@[i as int]));
            }
            match self.sessions.get(&k) {
                Some(s) => {
                    let hit = match &s.username {
                        Some(u) => u.eq(&name),
                        None => false,
                    };
                    if hit {
                        return Some(s);
                    }
                },
                None => {},
            }
            i = i + 1;
        }
        proof {
            assert forall|k: u64| #[trigger] self.sessions().contains_key(k) implies !(
            self.sessions()[k].username matches Some(u) && u@ == username@) by {
                assert(keys@.to_set().contains(k));
                let j = choose|j: int| 0 <= j < keys@.len() && keys@[j] == k;
            }
        }
        None
    }

    /// Tells both players that a game is over, then ends it.
    fn finish_game(&mut self, game_id: u64, reason: &str)
        requires
            old(self).wf(),
        ensures
            final(self).wf(),
            old(self).games().contains_key(game_id) ==> {
                &&& game_ended(*old(self), *final(self), game_id, old(self).games()[game_id].game, reason@)
                &&& final(self).outbox() == state_sent(
                    *old(self),
                    game_id,
                    old(self).games()[game_id].game,
                    Some(reason@),
                )
            },
            !old(self).games().contains_key(game_id) ==> unchanged(*old(self), *final(self))
                && final(self).outbox() == old(self).outbox(),
    {
        self.publish_state(game_id, Some(String::from_str(reason)));
        self.end_game(game_id, reason);
    }
}

/// The time now, in seconds since the Unix epoch (0 for a clock set before it).
///
/// Calls `std::time::SystemTime::now()` and `duration_since(UNIX_EPOCH)`;
/// nothing is promised of the value.
#[verifier::external_body]
fn unix_now() -> (t: u64) {
    std::time::SystemTime::now().duration_since(std::time::UNIX_EPOCH).unwrap_or_default().as_secs()
}

fn clone_text(o: &Option<String>) -> (c: Option<String>)
    ensures
        opt_text(c) == opt_text(*o),
{
    match o {
        Some(s) => Some(s.clone()),
        None => None,
    }
}

fn copy_texts(v: &[String]) -> (r: Vec<String>)
    ensures
        texts_of(r@) == texts_of(v@),
{
    let mut r: Vec<String> = Vec::new();
    let mut i: usize = 0;
    while i < v.len()
        invariant
            i <= v@.len(),
            r@.len() == i,
            forall|k: int| 0 <= k < i ==> (#[trigger] r@[k])@ == v@[k]@,
        decreases v@.len() - i,
    {
        r.push(v[i].clone());
        i = i + 1;
    }
    proof {
        assert(texts_of(r@) =~= texts_of(v@));
    }
    r
}

/// The games by their values.
pub open spec fn views(m: Map<u64, GameSession>) -> Map<u64, SessionView> {
    m.map_values(|s: GameSession| s@)
}

proof fn lemma_views_remove(m: Map<u64, GameSession>, k: u64)
    ensures
        views(m.remove(k)) == views(m).remove(k),
{
    assert(views(m.remove(k)) =~= views(m).remove(k));
}

proof fn lemma_views_insert(m: Map<u64, GameSession>, k: u64, v: GameSession)
    ensures
        views(m.insert(k, v)) == views(m).insert(k, v@),
{
    assert(views(m.insert(k, v)) =~= views(m).insert(k, v@));
}

/// Changing games in place, without starting or ending any, keeps a manager
/// well formed.
pub proof fn lemma_edit_keeps_wf(before: SessionManager, after: SessionManager)
    requires
        before.wf(),
        after.sessions() == before.sessions(),
        after.queue() == before.queue(),
        after.next_game_id() == before.next_game_id(),
        after.archive() == before.archive(),
        after.games().dom() == before.games().dom(),
    ensures
        after.wf(),
{
    assert forall|k: u64| #[trigger] after.games().contains_key(k) implies k < after.next_game_id()
        && !ids_of(after.archive().records()).contains(k) by {
        assert(before.games().contains_key(k));
    }
}

/// Whether the player with session number `id` plays in one of the games `gids`.
pub open spec fn plays_in(games: Map<u64, SessionView>, gids: Set<u64>, id: u64) -> bool {
    exists|g: u64|
        #![trigger gids.contains(g), games[g]]
        gids.contains(g) && games.contains_key(g) && (games[g].white_player.0 == id || games[g].black_player.0 == id)
}

/// The players with everyone who plays in one of the games `gids` idle.
pub open spec fn all_idle(sessions: Map<u64, PlayerSession>, games: Map<u64, SessionView>, gids: Set<u64>) -> Map<
    u64,
    PlayerSession,
> {
    Map::new(
        |k: u64| sessions.contains_key(k),
        |k: u64|
            if plays_in(games, gids, k) {
                PlayerSession { state: PlayerState::Idle, ..sessions[k] }
            } else {
                sessions[k]
            },
    )
}

proof fn lemma_idle_names(sessions: Map<u64, PlayerSession>, games: Map<u64, SessionView>, gids: Set<u64>)
    ensures
        forall|id: SessionId| #[trigger] name_in(all_idle(sessions, games, gids), id) == name_in(sessions, id),
{
}

proof fn lemma_idle_step(sessions: Map<u64, PlayerSession>, games: Map<u64, SessionView>, gids: Set<u64>, gid: u64)
    requires
        games.contains_key(gid),
    ensures
        with_state(
            with_state(all_idle(sessions, games, gids), games[gid].white_player, PlayerState::Idle),
            games[gid].black_player,
            PlayerState::Idle,
        ) == all_idle(sessions, games, gids.insert(gid)),
{
    let w = games[gid].white_player;
    let b = games[gid].black_player;
    let lhs = with_state(
        with_state(all_idle(sessions, games, gids), w, PlayerState::Idle),
        b,
        PlayerState::Idle,
    );
    let rhs = all_idle(sessions, games, gids.insert(gid));
    assert forall|k: u64| #[trigger] lhs.contains_key(k) <==> rhs.contains_key(k) by {}
    assert forall|k: u64| lhs.contains_key(k) implies #[trigger] lhs[k] == rhs[k] by {
        if k == w.0 || k == b.0 {
            assert(gids.insert(gid).contains(gid));
            assert(plays_in(games, gids.insert(gid), k));
        } else {
            if plays_in(games, gids.insert(gid), k) {
                let g = choose|g: u64|
                    #![trigger gids.insert(gid).contains(g), games[g]]
                    gids.insert(gid).contains(g) && games.contains_key(g) && (games[g].white_player.0 == k
                        || games[g].black_player.0 == k);
                assert(g != gid);
                assert(gids.contains(g));
                assert(plays_in(games, gids, k));
            }
            if plays_in(games, gids, k) {
                let g = choose|g: u64|
                    #![trigger gids.contains(g), games[g]]
                    gids.contains(g) && games.contains_key(g) && (games[g].white_player.0 == k
                        || games[g].black_player.0 == k);
                assert(gids.insert(gid).contains(g));
            }
        }
    }
    assert(lhs =~= rhs);
}

/// The game IDs of a map of games.
fn game_ids(m: &HashMap<u64, GameSession>) -> (ids: Vec<u64>)
    ensures
        ids@.to_set() == views(m@).dom(),
        ids@.no_duplicates(),
{
    let mut ids: Vec<u64> = Vec::new();
    for k in it: m.keys()
        invariant
            ids@ == it.seq().unref().take(it.index()),
            it.seq() == vstd::std_specs::hash::spec_keys_iter(m).remaining(),
    {
        ids.push(*k);
        proof {
            assert(it.seq().unref().take(it.index() + 1) =~= ids@);
        }
    }
    proof {
        let ghost s = vstd::std_specs::hash::spec_keys_iter(m).remaining();
        assert(ids@ =~= s.unref());
        assert(views(m@).dom() =~= m@.dom());
    }
    ids
}

/// The session numbers of a map of players.
fn session_numbers(m: &HashMap<u64, PlayerSession>) -> (ids: Vec<u64>)
    ensures
        ids@.to_set() == m@.dom(),
        ids@.no_duplicates(),
{
    let mut ids: Vec<u64> = Vec::new();
    for k in it: m.keys()
        invariant
            ids@ == it.seq().unref().take(it.index()),
            it.seq() == vstd::std_specs::hash::spec_keys_iter(m).remaining(),
    {
        ids.push(*k);
        proof {
            assert(it.seq().unref().take(it.index() + 1) =~= ids@);
        }
    }
    proof {
        let ghost s = vstd::std_specs::hash::spec_keys_iter(m).remaining();
        assert(ids@ =~= s.unref());
    }
    ids
}

/// `gid` is free for a new game: no game in progress has it, no archived
/// game has it, and every archived game has a lower ID.
pub open spec fn new_game_id(before: SessionManager, gid: u64) -> bool {
    &&& !before.games().contains_key(gid)
    &&& !ids_of(before.archive().records()).contains(gid)
    &&& forall|i: int| 0 <= i < before.archive().records().len() ==> (#[trigger] before.archive().records()[i]).id < gid
}

/// Game IDs are never reused: in a well-formed server (as every operation,
/// and reopening an archive with `with_history`, leaves it) the next game ID
/// is held by no game in progress and lies above every archived one.
pub proof fn lemma_next_game_id_fresh(m: SessionManager)
    requires
        m.wf(),
        m.next_game_id() < u64::MAX,
    ensures
        new_game_id(m, m.next_game_id()),
{
    let gid = m.next_game_id();
    let rs = m.archive().records();
    if ids_of(rs).contains(gid) {
        let j = choose|j: int| 0 <= j < ids_of(rs).len() && ids_of(rs)[j] == gid;
        assert(rs[j].id == gid);
    }
}

/// A fair coin for the colours of a new game.
///
/// Calls `rand::random::<bool>()`, drawn from the thread-local generator;
/// nothing is promised of the value.
#[verifier::external_body]
fn coin_flip() -> (b: bool) {
    rand::random::<bool>()
}

/// Nothing a caller can observe has changed.
pub open spec fn unchanged(before: SessionManager, after: SessionManager) -> bool {
    &&& after.sessions() == before.sessions()
    &&& after.queue() == before.queue()
    &&& after.games() == before.games()
    &&& after.next_game_id() == before.next_game_id()
    &&& after.archive() == before.archive()
}

/// `after` is `before` once game `gid` has ended as `g` for `reason`: the
/// game is no longer in progress, it is archived under its players' names,
/// and both players are idle.
pub open spec fn game_ended(before: SessionManager, after: SessionManager, gid: u64, g: GameView, reason: Seq<char>) -> bool {
    let s = before.games()[gid];
    &&& after.games() == before.games().remove(gid)
    &&& archived_one(
        before.archive().records(),
        after.archive().records(),
        gid,
        g,
        name_in(before.sessions(), s.white_player),
        name_in(before.sessions(), s.black_player),
        reason,
    )
    &&& after.archive().persisted() == before.archive().persisted()
    &&& after.sessions() == with_state(
        with_state(before.sessions(), s.white_player, PlayerState::Idle),
        s.black_player,
        PlayerState::Idle,
    )
    &&& after.queue() == before.queue()
    &&& after.next_game_id() == before.next_game_id()
}

/// The messages after both players of game `gid` are told that it stands at
/// `g` (with the reason it ended, when it did).
pub open spec fn state_sent(before: SessionManager, gid: u64, g: GameView, reason: Option<Seq<char>>) -> Seq<
    (SessionId, EventView),
> {
    let s = before.games()[gid];
    let ev = EventView::StateUpdated { game_id: gid, game: g, finished_reason: reason };
    notify(
        before.sessions(),
        notify(before.sessions(), before.outbox(), s.white_player, ev),
        s.black_player,
        ev,
    )
}

impl Default for SessionManager {
    /// A server with no players, no games and an empty archive in memory.
    fn default() -> (m: SessionManager)
        ensures
            m.wf(),
            m.sessions().len() == 0,
            m.queue().len() == 0,
            m.games().len() == 0,
            m.next_game_id() == 1,
            m.archive().records().len() == 0,
            m.outbox().len() == 0,
    {
        SessionManager::new()
    }
}

/// What `SessionManager::join_queue` did.
pub open spec fn join_queue_done(before: SessionManager, after: SessionManager, id: SessionId) -> bool {
    &&& (({
                let joins = before.sessions().contains_key(id.0) && before.sessions()[id.0].state
                    == PlayerState::Idle && !before.queue().contains(id);
                &&& after.queue() == if joins {
                    before.queue().push(id)
                } else {
                    before.queue()
                }
                &&& after.sessions() == if joins {
                    with_state(before.sessions(), id, PlayerState::InQueue)
                } else {
                    before.sessions()
                }
            }))
    &&& (after.games() == before.games())
    &&& (after.next_game_id() == before.next_game_id())
    &&& (after.archive() == before.archive())
    &&& (after.outbox() == before.outbox())
}

/// What `SessionManager::leave_queue` did.
pub open spec fn leave_queue_done(before: SessionManager, after: SessionManager, id: SessionId) -> bool {
    &&& (after.queue() == without(before.queue(), id))
    &&& (after.sessions() == if before.sessions().contains_key(id.0)
                && before.sessions()[id.0].state == PlayerState::InQueue {
                with_state(before.sessions(), id, PlayerState::Idle)
            } else {
                before.sessions()
            })
    &&& (after.games() == before.games())
    &&& (after.next_game_id() == before.next_game_id())
    &&& (after.archive() == before.archive())
    &&& (after.outbox() == before.outbox())
}

/// What `SessionManager::try_match` did.
pub open spec fn try_match_done(before: SessionManager, after: SessionManager, r: Option<u64>) -> bool {
    &&& (r is Some <==> before.queue().len() >= 2 && before.next_game_id() < u64::MAX)
    &&& (r matches Some(gid) ==> gid == before.next_game_id() && exists|swap: bool| #[trigger] matched_as(before, after, swap))
    &&& (r is None ==> unchanged(before, after) && after.outbox() == before.outbox())
}

/// A game between the two players who waited longest was started under the
/// next game ID (the second of them White when `swap`): both left the
/// queue and play it, and each was told of the match, with the other's name
/// and their own colour.
pub open spec fn matched_as(before: SessionManager, after: SessionManager, swap: bool) -> bool {
    let q = before.queue();
    let w = if swap { q[1] } else { q[0] };
    let b = if swap { q[0] } else { q[1] };
    let gid = before.next_game_id();
    let ss = before.sessions();
    &&& new_game_id(before, gid)
    &&& after.next_game_id() == gid + 1
    &&& after.queue() == q.skip(2)
    &&& after.games() == before.games().insert(
        gid,
        SessionView {
            id: gid,
            white_player: w,
            black_player: b,
            game: Game::new_spec(),
            draw_offer: DrawOfferState::NoOffer,
        },
    )
    &&& after.sessions() == with_state(with_state(ss, w, PlayerState::Playing(gid)), b, PlayerState::Playing(gid))
    &&& after.archive() == before.archive()
    &&& after.outbox() == notify(
        ss,
        notify(
            ss,
            before.outbox(),
            w,
            EventView::MatchFound { game_id: gid, opponent_name: name_in(ss, b), is_white: true },
        ),
        b,
        EventView::MatchFound { game_id: gid, opponent_name: name_in(ss, w), is_white: false },
    )
}

/// What `SessionManager::shutdown` did: every game in progress was ended for
/// "Server shutdown" and archived after the records there were, each once (in
/// some order `ks`); its players are idle; nothing else changed.
pub open spec fn shutdown_done(before: SessionManager, after: SessionManager) -> bool {
    let old_records = before.archive().records();
    let new_records = after.archive().records();
    &&& after.games() == Map::<u64, SessionView>::empty()
    &&& after.queue() == before.queue()
    &&& after.next_game_id() == before.next_game_id()
    &&& after.outbox() == before.outbox()
    &&& after.archive().persisted() == before.archive().persisted()
    &&& after.sessions() == all_idle(before.sessions(), before.games(), before.games().dom())
    &&& exists|ks: Seq<u64>|
        {
            &&& ks.to_set() == before.games().dom()
            &&& ks.no_duplicates()
            &&& new_records.len() == old_records.len() + ks.len()
            &&& new_records.take(old_records.len() as int) == old_records
            &&& forall|j: int|
                0 <= j < ks.len() ==> #[trigger] archives(
                    new_records[old_records.len() + j],
                    ks[j],
                    before.games()[ks[j]].game,
                    name_in(before.sessions(), before.games()[ks[j]].white_player),
                    name_in(before.sessions(), before.games()[ks[j]].black_player),
                    "Server shutdown"@,
                )
        }
}

/// Stopping a stopped server archives nothing more: after a shutdown no
/// game is in progress, so a second one leaves the archive as it was.
pub proof fn lemma_second_shutdown_archives_nothing(m0: SessionManager, m1: SessionManager, m2: SessionManager)
    requires
        shutdown_done(m0, m1),
        shutdown_done(m1, m2),
    ensures
        m2.archive().records() == m1.archive().records(),
        m2.games() == Map::<u64, SessionView>::empty(),
        m2.queue() == m1.queue(),
        m2.next_game_id() == m1.next_game_id(),
{
    let r1 = m1.archive().records();
    let r2 = m2.archive().records();
    let ks = choose|ks: Seq<u64>|
        {
            &&& ks.to_set() == m1.games().dom()
            &&& ks.no_duplicates()
            &&& r2.len() == r1.len() + ks.len()
            &&& r2.take(r1.len() as int) == r1
            &&& forall|j: int|
                0 <= j < ks.len() ==> #[trigger] archives(
                    r2[r1.len() + j],
                    ks[j],
                    m1.games()[ks[j]].game,
                    name_in(m1.sessions(), m1.games()[ks[j]].white_player),
                    name_in(m1.sessions(), m1.games()[ks[j]].black_player),
                    "Server shutdown"@,
                )
        };
    if ks.len() > 0 {
        assert(ks.to_set().contains(ks[0]));
        assert(m1.games().dom().contains(ks[0]));
    }
    assert(r2 =~= r2.take(r1.len() as int));
}

/// What `SessionManager::submit_move` did.
pub open spec fn submit_move_done(before: SessionManager, after: SessionManager, id: SessionId, game_id: u64, text: Seq<char>, r: Result<(), String>) -> bool {
    &&& (!before.games().contains_key(game_id) ==> (r matches Err(e) && e@ == "Game is already over"@)
                && unchanged(before, after) && after.outbox() == before.outbox())
    &&& (before.games().contains_key(game_id) ==> {
                let s = before.games()[game_id];
                let (st, g, d) = s.move_outcome(id, text);
                &&& outcome_of(r) == st
                &&& st is Err ==> unchanged(before, after) && after.outbox() == before.outbox()
                &&& st is Ok && game_over(g) ==> game_ended(before, after, game_id, g, end_reason(g))
                    && after.outbox() == state_sent(before, game_id, g, Some(end_reason(g)))
                &&& st is Ok && !game_over(g) ==> {
                    &&& after.games() == before.games().insert(
                        game_id,
                        SessionView { game: g, draw_offer: d, ..s },
                    )
                    &&& after.sessions() == before.sessions()
                    &&& after.queue() == before.queue()
                    &&& after.next_game_id() == before.next_game_id()
                    &&& after.archive() == before.archive()
                    &&& after.outbox() == state_sent(before, game_id, g, None)
                }
            })
}

/// What `SessionManager::resign_game` did.
pub open spec fn resign_game_done(before: SessionManager, after: SessionManager, id: SessionId, game_id: u64, r: Result<(), String>) -> bool {
    &&& (!before.games().contains_key(game_id) ==> (r matches Err(e) && e@ == "Game is already over"@)
                && unchanged(before, after) && after.outbox() == before.outbox())
    &&& (before.games().contains_key(game_id) ==> {
                let s = before.games()[game_id];
                let g = s.resigned_by(id);
                &&& s.player_color(id) is None ==> (r matches Err(e) && e@ == "Not a player"@) && unchanged(
                    before,
                    after,
                ) && after.outbox() == before.outbox()
                &&& s.player_color(id) is Some ==> r is Ok && game_ended(
                    before,
                    after,
                    game_id,
                    g,
                    "Resignation"@,
                ) && after.outbox() == state_sent(before, game_id, g, Some("Resignation"@))
            })
}

/// What `SessionManager::offer_draw` did.
pub open spec fn offer_draw_done(before: SessionManager, after: SessionManager, id: SessionId, game_id: u64, r: Result<(), String>) -> bool {
    &&& (!before.games().contains_key(game_id) ==> (r matches Err(e) && e@ == "Game is already over"@)
                && unchanged(before, after) && after.outbox() == before.outbox())
    &&& (before.games().contains_key(game_id) ==> {
                let s = before.games()[game_id];
                let (st, g, d) = s.draw_outcome(id);
                &&& outcome_of(r) == st
                &&& st is Err ==> unchanged(before, after) && after.outbox() == before.outbox()
                &&& st is Ok && game_over(g) ==> game_ended(
                    before,
                    after,
                    game_id,
                    g,
                    "Draw by agreement"@,
                ) && after.outbox() == state_sent(before, game_id, g, Some("Draw by agreement"@))
                &&& st is Ok && !game_over(g) ==> {
                    &&& after.games() == before.games().insert(
                        game_id,
                        SessionView { game: g, draw_offer: d, ..s },
                    )
                    &&& after.sessions() == before.sessions()
                    &&& after.queue() == before.queue()
                    &&& after.next_game_id() == before.next_game_id()
                    &&& after.archive() == before.archive()
                    &&& after.outbox() == notify(
                        before.sessions(),
                        before.outbox(),
                        s.opponent(id)->Some_0,
                        EventView::DrawOffered { game_id },
                    )
                }
            })
}

} // verus!

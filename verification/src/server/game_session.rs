//! One online game between two connected players.
use vstd::prelude::*;

use crate::chess::game::{
    after_move,
    first_match, is_first_match, key_of, parse_uci, play_key_spec, san_play_spec, status_of, uci_play_spec, Game,
    GameResult, GameView,
};
use crate::chess::rules::{spec_facts, spec_legal_moves, spec_san_lookup, uci_keys_distinct, MoveInfo, MoveSpec, UciKey};
use crate::chess::types::{lemma_square_name_roundtrip, Color, Square};
use crate::ssh::session::SessionId;
use crate::text::{
    chars_of, concat, is_space, lead_len, lowercase, prefixed, spec_lowercase, string_of, text_is, trail_len, trim,
    trim_chars,
};

verus! {

/// Whether a draw has been proposed in a game, and by whom.
#[derive(Debug, Clone, Copy, PartialEq, Eq, Structural)]
pub enum DrawOfferState {
    NoOffer,
    OfferedBy(SessionId),
}

/// The side to move in a game, as the rules give it.
pub open spec fn turn_of(g: GameView) -> Color {
    match spec_facts(g.fen) {
        Some(f) => if f.white_to_move {
            Color::White
        } else {
            Color::Black
        },
        None => Color::White,
    }
}

/// The standard UCI text of a move, such as `e2e4` or `a7a8q`.
pub open spec fn uci_text(m: MoveSpec) -> Seq<char> {
    match (m.uci_from, m.uci_to) {
        (Some(f), Some(t)) => f.spec_name() + t.spec_name() + match m.promotion {
            Some(p) => seq![p],
            None => Seq::empty(),
        },
        _ => Seq::empty(),
    }
}

/// The standard UCI text of a move, such as `e2e4` or `a7a8q`.
pub fn uci_of(m: &MoveInfo) -> (s: String)
    ensures
        s@ == uci_text(m@),
{
    match (m.uci_from, m.uci_to) {
        (Some(f), Some(t)) => {
            let a = f.name();
            let b = t.name();
            let mut v = concat(a.as_slice(), b.as_slice());
            match m.promotion {
                Some(p) => {
                    v.push(p);
                },
                None => {},
            }
            proof {
                assert(v@ =~= uci_text(m@));
            }
            string_of(v.as_slice())
        },
        _ => {
            proof {
                assert(uci_text(m@) =~= Seq::<char>::empty());
            }
            String::new()
        },
    }
}

/// Player input made into SAN: a leading piece letter is capitalised and
/// castling typed with lowercase `o` or zeros is written with capital `O`.
pub open spec fn normalize_san(input: Seq<char>) -> Seq<char> {
    let t = trim(input);
    if t.len() == 0 {
        t
    } else if t[0] == 'n' || t[0] == 'b' || t[0] == 'r' || t[0] == 'q' || t[0] == 'k' {
        seq![upper_piece(t[0])] + t.drop_first()
    } else if t[0] == 'N' || t[0] == 'B' || t[0] == 'R' || t[0] == 'Q' || t[0] == 'K' {
        t
    } else if t == "o-o"@ || t == "0-0"@ {
        "O-O"@
    } else if t == "o-o-o"@ || t == "0-0-0"@ {
        "O-O-O"@
    } else {
        t
    }
}

/// Castling typed the short way round is kingside and the long way round
/// queenside, whatever surrounds it: `o-o` and `0-0` become `O-O`, `o-o-o`
/// and `0-0-0` become `O-O-O`, and the two never trade places.
pub proof fn lemma_castling_spellings(input: Seq<char>)
    ensures
        trim(input) == "o-o"@ || trim(input) == "0-0"@ ==> normalize_san(input) == "O-O"@,
        trim(input) == "o-o-o"@ || trim(input) == "0-0-0"@ ==> normalize_san(input) == "O-O-O"@,
        normalize_san(input) == "O-O"@ ==> trim(input) != "o-o-o"@ && trim(input) != "0-0-0"@,
        normalize_san(input) == "O-O-O"@ ==> trim(input) != "o-o"@ && trim(input) != "0-0"@,
{
    reveal_strlit("o-o");
    reveal_strlit("0-0");
    reveal_strlit("o-o-o");
    reveal_strlit("0-0-0");
    reveal_strlit("O-O");
    reveal_strlit("O-O-O");
    assert("O-O"@.len() != "O-O-O"@.len());
}

pub open spec fn upper_piece(c: char) -> char {
    if c == 'n' {
        'N'
    } else if c == 'b' {
        'B'
    } else if c == 'r' {
        'R'
    } else if c == 'q' {
        'Q'
    } else {
        'K'
    }
}

/// `normalize_san` on characters.
pub fn normalize_san_chars(input: &[char]) -> (r: Vec<char>)
    ensures
        r@ == normalize_san(input@),
{
    let t = trim_chars(input);
    if t.len() == 0 {
        return t;
    }
    let c = t[0];
    if c == 'n' || c == 'b' || c == 'r' || c == 'q' || c == 'k' {
        let up = if c == 'n' {
            'N'
        } else if c == 'b' {
            'B'
        } else if c == 'r' {
            'R'
        } else if c == 'q' {
            'Q'
        } else {
            'K'
        };
        let mut head: Vec<char> = Vec::new();
        head.push(up);
        let rest = crate::text::slice_chars(t.as_slice(), 1, t.len());
        proof {
            assert(rest@ =~= t@.drop_first());
        }
        return concat(head.as_slice(), rest.as_slice());
    }
    if c == 'N' || c == 'B' || c == 'R' || c == 'Q' || c == 'K' {
        return t;
    }
    if text_is(t.as_slice(), "o-o") || text_is(t.as_slice(), "0-0") {
        return chars_of("O-O");
    }
    if text_is(t.as_slice(), "o-o-o") || text_is(t.as_slice(), "0-0-0") {
        return chars_of("O-O-O");
    }
    t
}

/// Playing a move typed by a player, once it is the player's turn: SAN as
/// typed (so that `b4` is the b-pawn), then SAN after normalizing (`nf3`),
/// then UCI; refused with the text when none reads as a legal move.
pub open spec fn text_move(g: GameView, text: Seq<char>) -> (Result<(), Seq<char>>, GameView) {
    let (s0, g0) = san_play_spec(g, text);
    let (s1, g1) = san_play_spec(g, normalize_san(text));
    let (s2, g2) = uci_play_spec(g, spec_lowercase(text));
    if s0 is Ok {
        (Ok(()), g0)
    } else if s1 is Ok {
        (Ok(()), g1)
    } else if s2 is Ok {
        (Ok(()), g2)
    } else {
        (Err("Invalid move: "@ + text), g)
    }
}

/// What a `Result` says, with the message as characters and the value dropped.
pub open spec fn outcome_of<T>(r: Result<T, String>) -> Result<(), Seq<char>> {
    match r {
        Ok(_) => Ok(()),
        Err(e) => Err(e@),
    }
}

/// An online game and the players in it.
pub struct GameSession {
    pub id: u64,
    pub white_player: SessionId,
    pub black_player: SessionId,
    pub game: Game,
    pub draw_offer: DrawOfferState,
}

/// The value of a [`GameSession`].
pub struct SessionView {
    pub id: u64,
    pub white_player: SessionId,
    pub black_player: SessionId,
    pub game: GameView,
    pub draw_offer: DrawOfferState,
}

impl View for GameSession {
    type V = SessionView;

    open spec fn view(&self) -> SessionView {
        SessionView {
            id: self.id,
            white_player: self.white_player,
            black_player: self.black_player,
            game: self.game@,
            draw_offer: self.draw_offer,
        }
    }
}

impl SessionView {
    pub open spec fn is_player(self, id: SessionId) -> bool {
        self.white_player == id || self.black_player == id
    }

    /// Whether it is `id`'s turn to move.
    pub open spec fn is_players_turn(self, id: SessionId) -> bool {
        match turn_of(self.game) {
            Color::White => id == self.white_player,
            Color::Black => id == self.black_player,
        }
    }

    /// The colour `id` plays, if `id` plays.
    pub open spec fn player_color(self, id: SessionId) -> Option<Color> {
        if id == self.white_player {
            Some(Color::White)
        } else if id == self.black_player {
            Some(Color::Black)
        } else {
            None
        }
    }

    /// The other player, if `id` plays.
    pub open spec fn opponent(self, id: SessionId) -> Option<SessionId> {
        if id == self.white_player {
            Some(self.black_player)
        } else if id == self.black_player {
            Some(self.white_player)
        } else {
            None
        }
    }

    /// What a typed move does to a game: whether it is taken, the game after
    /// it and the draw offer after it.
    pub open spec fn move_outcome(self, id: SessionId, text: Seq<char>) -> (
        Result<(), Seq<char>>,
        GameView,
        DrawOfferState,
    ) {
        if !self.is_players_turn(id) {
            (Err("Not your turn"@), self.game, self.draw_offer)
        } else {
            let (st, g) = text_move(self.game, text);
            (st, g, if st is Ok { DrawOfferState::NoOffer } else { self.draw_offer })
        }
    }

    /// What offering (or accepting) a draw does to a game.
    pub open spec fn draw_outcome(self, id: SessionId) -> (Result<(), Seq<char>>, GameView, DrawOfferState) {
        if !self.is_player(id) {
            (Err("Not a player"@), self.game, self.draw_offer)
        } else {
            match self.draw_offer {
                DrawOfferState::NoOffer => (Ok(()), self.game, DrawOfferState::OfferedBy(id)),
                DrawOfferState::OfferedBy(o) => if o != id {
                    (Ok(()), GameView { result: GameResult::Draw, ..self.game }, DrawOfferState::NoOffer)
                } else {
                    (Err("You already offered a draw"@), self.game, self.draw_offer)
                },
            }
        }
    }

    /// The game after a player resigns it (unchanged for a non-player).
    pub open spec fn resigned_by(self, id: SessionId) -> GameView {
        match self.player_color(id) {
            Some(Color::White) => GameView { result: GameResult::WhiteResigned, ..self.game },
            Some(Color::Black) => GameView { result: GameResult::BlackResigned, ..self.game },
            None => self.game,
        }
    }
}

impl GameSession {
    pub fn new(id: u64, white_player: SessionId, black_player: SessionId) -> (s: GameSession)
        ensures
            s.id == id,
            s.white_player == white_player,
            s.black_player == black_player,
            s.game@ == Game::new_spec(),
            s.draw_offer == DrawOfferState::NoOffer,
    {
        GameSession { id, white_player, black_player, game: Game::new(), draw_offer: DrawOfferState::NoOffer }
    }

    pub open spec fn spec_is_player(&self, id: SessionId) -> bool {
        self@.is_player(id)
    }

    /// Whether a session plays in this game.
    pub fn is_player(&self, session_id: SessionId) -> (b: bool)
        ensures
            b == self.spec_is_player(session_id),
    {
        self.white_player == session_id || self.black_player == session_id
    }

    /// The other player of the game.
    pub fn get_opponent(&self, session_id: SessionId) -> (o: Option<SessionId>)
        ensures
            o == self@.opponent(session_id),
    {
        if session_id == self.white_player {
            Some(self.black_player)
        } else if session_id == self.black_player {
            Some(self.white_player)
        } else {
            None
        }
    }

    pub open spec fn spec_is_players_turn(&self, id: SessionId) -> bool {
        self@.is_players_turn(id)
    }

    /// Whether it is this session's turn to move.
    pub fn is_players_turn(&self, session_id: SessionId) -> (b: bool)
        ensures
            b == self.spec_is_players_turn(session_id),
    {
        match self.game.turn() {
            Color::White => session_id == self.white_player,
            Color::Black => session_id == self.black_player,
        }
    }

    pub open spec fn spec_player_color(&self, id: SessionId) -> Option<Color> {
        self@.player_color(id)
    }

    /// The colour a session plays.
    pub fn get_player_color(&self, session_id: SessionId) -> (c: Option<Color>)
        ensures
            c == self.spec_player_color(session_id),
    {
        if session_id == self.white_player {
            Some(Color::White)
        } else if session_id == self.black_player {
            Some(Color::Black)
        } else {
            None
        }
    }

    /// Plays a move in UCI notation for a player and returns it.
    pub fn play_uci(&mut self, session_id: SessionId, uci: &str) -> (r: Result<String, String>)
        ensures
            final(self).id == old(self).id,
            final(self).white_player == old(self).white_player,
            final(self).black_player == old(self).black_player,
            !old(self).spec_is_players_turn(session_id) ==> (r matches Err(e) && e@ == "Not your turn"@)
                && final(self).game@ == old(self).game@ && final(self).draw_offer == old(self).draw_offer,
            old(self).spec_is_players_turn(session_id) ==> {
                let (s, g) = uci_play_spec(old(self).game@, uci@);
                &&& final(self).game@ == g
                &&& match r {
                    Ok(m) => s is Ok && m@ == uci@ && final(self).draw_offer == DrawOfferState::NoOffer,
                    Err(e) => s == Err::<(), Seq<char>>(e@) && final(self).draw_offer == old(self).draw_offer,
                }
            },
    {
        if !self.is_players_turn(session_id) {
            return Err(String::from_str("Not your turn"));
        }
        match self.game.play_uci(uci) {
            Ok(()) => {
                self.draw_offer = DrawOfferState::NoOffer;
                Ok(String::from_str(uci))
            },
            Err(e) => Err(e),
        }
    }

    /// The UCI text of the last move of the game.
    fn last_move_uci(&self) -> (s: String)
        requires
            self.game@.moves.len() > 0,
        ensures
            s@ == uci_text(self.game@.moves.last()),
    {
        let h = self.game.move_history();
        let m = &h[h.len() - 1];
        proof {
            assert(m@ == self.game@.moves.last());
        }
        match (m.uci_from, m.uci_to) {
            (Some(f), Some(t)) => {
                let a = f.name();
                let b = t.name();
                let mut v = concat(a.as_slice(), b.as_slice());
                match m.promotion {
                    Some(p) => {
                        v.push(p);
                    },
                    None => {},
                }
                proof {
                    assert(v@ =~= uci_text(m@));
                }
                string_of(v.as_slice())
            },
            _ => {
                proof {
                    assert(uci_text(m@) =~= Seq::<char>::empty());
                }
                String::new()
            },
        }
    }

    /// Plays a move typed by a player, in SAN (`Nf3`, `b4`, `nf3`, `o-o`) or in
    /// UCI (`g1f3`, `E2E4`), and returns it in UCI notation.
    pub fn play_move_text(&mut self, session_id: SessionId, text: &str) -> (r: Result<String, String>)
        ensures
            final(self).id == old(self).id,
            final(self).white_player == old(self).white_player,
            final(self).black_player == old(self).black_player,
            !old(self).spec_is_players_turn(session_id) ==> (r matches Err(e) && e@ == "Not your turn"@)
                && final(self).game@ == old(self).game@ && final(self).draw_offer == old(self).draw_offer,
            old(self).spec_is_players_turn(session_id) ==> {
                let (s0, g0) = san_play_spec(old(self).game@, text@);
                let (s1, g1) = san_play_spec(old(self).game@, normalize_san(text@));
                let (s2, g2) = uci_play_spec(old(self).game@, spec_lowercase(text@));
                if s0 is Ok {
                    &&& final(self).game@ == g0
                    &&& final(self).draw_offer == DrawOfferState::NoOffer
                    &&& r matches Ok(m) && m@ == uci_text(g0.moves.last())
                } else if s1 is Ok {
                    &&& final(self).game@ == g1
                    &&& final(self).draw_offer == DrawOfferState::NoOffer
                    &&& r matches Ok(m) && m@ == uci_text(g1.moves.last())
                } else if s2 is Ok {
                    &&& final(self).game@ == g2
                    &&& final(self).draw_offer == DrawOfferState::NoOffer
                    &&& r matches Ok(m) && m@ == spec_lowercase(text@)
                } else {
                    &&& final(self).game@ == old(self).game@
                    &&& final(self).draw_offer == old(self).draw_offer
                    &&& r matches Err(e) && e@ == "Invalid move: "@ + text@
                }
            },
            (outcome_of(r), final(self).game@, final(self).draw_offer) == old(self)@.move_outcome(
                session_id,
                text@,
            ),
    {
        if !self.is_players_turn(session_id) {
            return Err(String::from_str("Not your turn"));
        }
        let raw = chars_of(text);
        let ghost g0 = self.game@;
        if self.game.play_san(text).is_ok() {
            self.draw_offer = DrawOfferState::NoOffer;
            proof {
                assert(self.game@.moves.len() == g0.moves.len() + 1);
            }
            return Ok(self.last_move_uci());
        }
        let normalized = string_of(normalize_san_chars(raw.as_slice()).as_slice());
        if self.game.play_san(normalized.as_str()).is_ok() {
            self.draw_offer = DrawOfferState::NoOffer;
            proof {
                assert(self.game@.moves.len() == g0.moves.len() + 1);
            }
            return Ok(self.last_move_uci());
        }
        let uci = lowercase(text);
        if self.game.play_uci(uci.as_str()).is_ok() {
            self.draw_offer = DrawOfferState::NoOffer;
            return Ok(uci);
        }
        Err(prefixed("Invalid move: ", raw.as_slice()))
    }

    /// Offers a draw, or accepts the opponent's standing offer.
    pub fn offer_draw(&mut self, session_id: SessionId) -> (r: Result<(), String>)
        ensures
            final(self).id == old(self).id,
            final(self).white_player == old(self).white_player,
            final(self).black_player == old(self).black_player,
            !old(self).spec_is_player(session_id) ==> (r matches Err(e) && e@ == "Not a player"@)
                && final(self).game@ == old(self).game@ && final(self).draw_offer == old(self).draw_offer,
            old(self).spec_is_player(session_id) ==> match old(self).draw_offer {
                DrawOfferState::NoOffer => r is Ok && final(self).game@ == old(self).game@
                    && final(self).draw_offer == DrawOfferState::OfferedBy(session_id),
                DrawOfferState::OfferedBy(o) => if o != session_id {
                    &&& r is Ok
                    &&& final(self).game@ == (GameView { result: GameResult::Draw, ..old(self).game@ })
                    &&& final(self).draw_offer == DrawOfferState::NoOffer
                } else {
                    (r matches Err(e) && e@ == "You already offered a draw"@) && final(self).game@
                        == old(self).game@ && final(self).draw_offer == old(self).draw_offer
                },
            },
            (outcome_of(r), final(self).game@, final(self).draw_offer) == old(self)@.draw_outcome(
                session_id,
            ),
    {
        if !self.is_player(session_id) {
            return Err(String::from_str("Not a player"));
        }
        match self.draw_offer {
            DrawOfferState::NoOffer => {
                self.draw_offer = DrawOfferState::OfferedBy(session_id);
                Ok(())
            },
            DrawOfferState::OfferedBy(offerer) => {
                if offerer != session_id {
                    self.game.set_result(GameResult::Draw);
                    self.draw_offer = DrawOfferState::NoOffer;
                    Ok(())
                } else {
                    Err(String::from_str("You already offered a draw"))
                }
            },
        }
    }

    /// Turns down the opponent's standing draw offer.
    pub fn decline_draw(&mut self, session_id: SessionId) -> (r: Result<(), String>)
        ensures
            final(self).id == old(self).id,
            final(self).white_player == old(self).white_player,
            final(self).black_player == old(self).black_player,
            final(self).game@ == old(self).game@,
            match old(self).draw_offer {
                DrawOfferState::OfferedBy(o) if o != session_id => r is Ok && final(self).draw_offer
                    == DrawOfferState::NoOffer,
                _ => r matches Err(e) && e@ == "No draw offer to decline"@ && final(self).draw_offer
                    == old(self).draw_offer,
            },
    {
        match self.draw_offer {
            DrawOfferState::OfferedBy(offerer) => {
                if offerer != session_id {
                    self.draw_offer = DrawOfferState::NoOffer;
                    Ok(())
                } else {
                    Err(String::from_str("No draw offer to decline"))
                }
            },
            DrawOfferState::NoOffer => Err(String::from_str("No draw offer to decline")),
        }
    }

    /// A player gives up the game.
    pub fn resign(&mut self, session_id: SessionId) -> (r: Result<(), String>)
        ensures
            final(self).id == old(self).id,
            final(self).white_player == old(self).white_player,
            final(self).black_player == old(self).black_player,
            final(self).draw_offer == old(self).draw_offer,
            match old(self).spec_player_color(session_id) {
                Some(c) => r is Ok && final(self).game@ == (GameView {
                    result: match c {
                        Color::White => GameResult::WhiteResigned,
                        Color::Black => GameResult::BlackResigned,
                    },
                    ..old(self).game@
                }),
                None => r matches Err(e) && e@ == "Not a player"@ && final(self).game@ == old(
                    self,
                ).game@,
            },
            final(self).game@ == old(self)@.resigned_by(session_id),
    {
        match self.get_player_color(session_id) {
            Some(color) => {
                self.game.resign(color);
                Ok(())
            },
            None => Err(String::from_str("Not a player")),
        }
    }

    /// Whether the other player has offered this session a draw.
    pub fn has_pending_draw_offer_for(&self, session_id: SessionId) -> (b: bool)
        ensures
            b == (self.draw_offer matches DrawOfferState::OfferedBy(o) && o != session_id),
    {
        match self.draw_offer {
            DrawOfferState::OfferedBy(offerer) => offerer != session_id,
            DrawOfferState::NoOffer => false,
        }
    }
}


/// Plays a move typed in SAN (`Nf3`, `nf3`, `o-o`) or in UCI (`g1f3`,
/// `E2E4`), as an online game takes it.
pub fn play_text(game: &mut Game, text: &str) -> (r: Result<(), String>)
    ensures
        (status_of(r), final(game)@) == text_move(old(game)@, text@),
{
    let raw = chars_of(text);
    if game.play_san(text).is_ok() {
        return Ok(());
    }
    let normalized = string_of(normalize_san_chars(raw.as_slice()).as_slice());
    if game.play_san(normalized.as_str()).is_ok() {
        return Ok(());
    }
    let uci = lowercase(text);
    if game.play_uci(uci.as_str()).is_ok() {
        return Ok(());
    }
    Err(prefixed("Invalid move: ", raw.as_slice()))
}

/// A move with standard UCI squares: an origin and a destination on the
/// board, and a promotion (if any) to queen, rook, bishop or knight.
pub open spec fn standard_uci(m: MoveSpec) -> bool {
    &&& m.uci_from is Some && m.uci_from->Some_0.0 < 64
    &&& m.uci_to is Some && m.uci_to->Some_0.0 < 64
    &&& m.promotion is None || m.promotion == Some('q') || m.promotion == Some('r') || m.promotion == Some('b')
        || m.promotion == Some('n')
}

/// The UCI text of a move reads back as the same move: its origin, its
/// destination and its promotion.
pub proof fn lemma_uci_text_roundtrip(m: MoveSpec)
    requires
        standard_uci(m),
    ensures
        trim(uci_text(m)) == uci_text(m),
        parse_uci(trim(uci_text(m))) == Ok::<UciKey, Seq<char>>(key_of(m)),
{
    let f = m.uci_from->Some_0;
    let t = m.uci_to->Some_0;
    let s = uci_text(m);
    lemma_square_name_roundtrip(f);
    lemma_square_name_roundtrip(t);
    assert(s.subrange(0, 2) =~= f.spec_name());
    assert(s.subrange(2, 4) =~= t.spec_name());
    assert(!is_space(s[0]));
    assert(lead_len(s) == 0);
    assert(!is_space(s.last()));
    assert(trail_len(s) == 0);
    assert(s.subrange(0, s.len() as int) =~= s);
    crate::text::lemma_utf8_len_at_least(s);
}

/// When some legal move is identified by `k`, the first one is.
proof fn lemma_first_exists(ms: Seq<MoveSpec>, k: UciKey, i: int)
    requires
        0 <= i < ms.len(),
        key_of(ms[i]) == k,
    ensures
        is_first_match(ms, k, first_match(ms, k)),
    decreases i,
{
    if exists|j: int| 0 <= j < i && #[trigger] key_of(ms[j]) == k {
        let j = choose|j: int| 0 <= j < i && #[trigger] key_of(ms[j]) == k;
        lemma_first_exists(ms, k, j);
    } else {
        assert(is_first_match(ms, k, i));
    }
}

/// Replaying on the previous position, as UCI, the move a game has just
/// taken (whatever notation named it) gives the same game. This is what
/// keeps the boards of two players, who receive each other's moves as UCI,
/// identical.
pub proof fn lemma_replay_as_uci(g: GameView, k: UciKey)
    requires
        play_key_spec(g, k).0 is Ok,
        standard_uci(play_key_spec(g, k).1.moves.last()),
    ensures
        uci_play_spec(g, uci_text(play_key_spec(g, k).1.moves.last())) == play_key_spec(g, k),
{
    let ms = spec_legal_moves(g.fen);
    let w = choose|i: int| 0 <= i < ms.len() && #[trigger] key_of(ms[i]) == k;
    lemma_first_exists(ms, k, w);
    let i = first_match(ms, k);
    let m = play_key_spec(g, k).1.moves.last();
    assert(m == ms[i]);
    lemma_uci_text_roundtrip(m);
}

/// A legal move of a game still going on, given by its own UCI text
/// (castling as the king's move), is taken: the move played has the same
/// origin, destination and promotion, and the game goes on from the first
/// legal move so identified. Where no two legal moves share those (as
/// `Game::legal_moves` reports of every position), the move played is the
/// move given.
pub proof fn lemma_legal_move_plays_by_uci(g: GameView, i: int)
    requires
        g.result == GameResult::Ongoing,
        0 <= i < spec_legal_moves(g.fen).len(),
        standard_uci(spec_legal_moves(g.fen)[i]),
    ensures
        uci_play_spec(g, uci_text(spec_legal_moves(g.fen)[i])).0 is Ok,
        key_of(uci_play_spec(g, uci_text(spec_legal_moves(g.fen)[i])).1.moves.last()) == key_of(
            spec_legal_moves(g.fen)[i],
        ),
        uci_play_spec(g, uci_text(spec_legal_moves(g.fen)[i])) == play_key_spec(g, key_of(spec_legal_moves(g.fen)[i])),
        uci_keys_distinct(spec_legal_moves(g.fen)) ==> uci_play_spec(g, uci_text(spec_legal_moves(g.fen)[i])).1
            == after_move(g, i),
{
    let ms = spec_legal_moves(g.fen);
    let k = key_of(ms[i]);
    lemma_uci_text_roundtrip(ms[i]);
    lemma_first_exists(ms, k, i);
    let j = first_match(ms, k);
    assert(after_move(g, j).moves.last() == ms[j]);
    if uci_keys_distinct(ms) {
        assert(is_first_match(ms, k, j));
        if j < i {
            assert((ms[j].uci_from, ms[j].uci_to, ms[j].promotion) != (ms[i].uci_from, ms[i].uci_to, ms[i].promotion));
        }
        assert(j == i);
    }
}

/// A move typed in SAN, reported in UCI and replayed as UCI on a copy of the
/// position before it, gives the same game.
pub proof fn lemma_san_replays_as_uci(g: GameView, text: Seq<char>)
    requires
        san_play_spec(g, text).0 is Ok,
        standard_uci(san_play_spec(g, text).1.moves.last()),
    ensures
        uci_play_spec(g, uci_text(san_play_spec(g, text).1.moves.last())) == san_play_spec(g, text),
{
    let k = spec_san_lookup(g.fen, text)->Some_0->Ok_0;
    lemma_replay_as_uci(g, k);
}

} // verus!

//! The per-game session state machine.
//!
//! A session owns one game's players, its serialized position, whose turn it
//! is, and the repetition table. `apply_move` is the single state transition:
//! it enforces turns, delegates legality to the rules engine, flips the turn
//! on acceptance, and classifies the outcome — decisive win, drawn position,
//! fifty-move draw, threefold-repetition draw, or an ordinary update.
//! Rejected moves never mutate the session.

use vstd::prelude::*;
use vstd::pervasive::unreached;
use crate::engine;
use crate::engine::{Ending, EngineReject};
use crate::repetition;
use crate::table::Table;

verus! {

/// Why a submitted move was rejected. A rejection is reported to the offending
/// player alone and leaves the session untouched.
#[derive(Clone, Copy, Debug, PartialEq, Eq, Structural)]
pub enum MoveError {
    /// The mover does not hold the seat whose turn it is.
    WrongTurn,
    /// The stored position no longer parses.
    IllegalPosition,
    /// The move text is not valid standard algebraic notation.
    IllegalSan,
    /// The move is not legal in the current position.
    IllegalMove,
}

/// What one submitted move did to the session.
#[derive(Clone, Copy, Debug, PartialEq, Eq, Structural)]
pub enum MoveEffect {
    /// The move was refused; nothing changed.
    Rejected(MoveError),
    /// The move was played and the game goes on.
    Update,
    /// The move was played and decided the game.
    Decisive { winner_white: bool },
    /// The move was played and drew the game: stalemate or insufficient
    /// material per the rules engine, the fifty-move rule, or threefold
    /// repetition.
    Draw,
}

/// Whether the effect ends the session.
pub open spec fn is_terminal(e: MoveEffect) -> bool {
    e is Decisive || e is Draw
}

/// The abstract content of an optional identity.
pub open spec fn opt_view(o: Option<String>) -> Option<Seq<char>> {
    match o {
        Some(s) => Some(s@),
        None => None,
    }
}

/// The abstract state of one session.
#[verifier::ext_equal]
pub ghost struct GameView {
    pub player_white: Seq<char>,
    pub player_black: Option<Seq<char>>,
    pub fen: Seq<char>,
    pub turn_white: bool,
    pub rep_counts: Map<Seq<char>, u32>,
}

/// How often a canonical key has been counted so far.
pub open spec fn count_of(m: Map<Seq<char>, u32>, k: Seq<char>) -> int {
    if m.contains_key(k) {
        m[k] as int
    } else {
        0
    }
}

impl GameView {
    /// Session invariant: the white seat is never empty, and no canonical key
    /// has been counted often enough to have ended the game already.
    pub open spec fn inv(self) -> bool {
        &&& self.player_white.len() > 0
        &&& forall|k: Seq<char>| self.rep_counts.contains_key(k) ==> self.rep_counts[k] <= 2
    }

    /// A session awaits an opponent exactly while its black seat is empty.
    pub open spec fn awaiting_opponent(self) -> bool {
        self.player_black is None
    }
}

/// The effect of submitting `san` as the player holding the white seat
/// (`mover_white`) in state `g`, in the order the rules prescribe: turn
/// enforcement, position parse, move parse, legality, then outcome
/// classification of the resulting position.
pub open spec fn move_decision(g: GameView, mover_white: bool, san: Seq<char>) -> MoveEffect {
    if mover_white != g.turn_white {
        MoveEffect::Rejected(MoveError::WrongTurn)
    } else if !engine::fen_ok(g.fen) {
        MoveEffect::Rejected(MoveError::IllegalPosition)
    } else if !engine::san_ok(san) {
        MoveEffect::Rejected(MoveError::IllegalSan)
    } else if !engine::move_ok(g.fen, san) {
        MoveEffect::Rejected(MoveError::IllegalMove)
    } else {
        let nf = engine::next_fen(g.fen, san);
        match engine::ending_of(nf) {
            Ending::WhiteWins => MoveEffect::Decisive { winner_white: true },
            Ending::BlackWins => MoveEffect::Decisive { winner_white: false },
            Ending::Draw => MoveEffect::Draw,
            Ending::Ongoing => {
                if engine::clock_of(nf) >= 100 {
                    MoveEffect::Draw
                } else if count_of(g.rep_counts, repetition::canonical_key_spec(nf)) + 1 >= 3 {
                    MoveEffect::Draw
                } else {
                    MoveEffect::Update
                }
            },
        }
    }
}

/// The state after submitting `san`: unchanged on rejection; otherwise the new
/// position is stored, the turn flips, and — only while the game would go on
/// past the engine's classification and the fifty-move rule — the canonical
/// key of the new position is counted once more.
pub open spec fn game_after(g: GameView, mover_white: bool, san: Seq<char>) -> GameView {
    if move_decision(g, mover_white, san) is Rejected {
        g
    } else {
        let nf = engine::next_fen(g.fen, san);
        let key = repetition::canonical_key_spec(nf);
        GameView {
            fen: nf,
            turn_white: !g.turn_white,
            rep_counts: if engine::ending_of(nf) is Ongoing && engine::clock_of(nf) < 100 {
                g.rep_counts.insert(key, (count_of(g.rep_counts, key) + 1) as u32)
            } else {
                g.rep_counts
            },
            ..g
        }
    }
}

/// The turn strictly alternates: every accepted move hands it to the other
/// seat.
pub proof fn lemma_turn_alternates(g: GameView, mover_white: bool, san: Seq<char>)
    requires
        !(move_decision(g, mover_white, san) is Rejected),
    ensures
        game_after(g, mover_white, san).turn_white == !g.turn_white,
{
}

/// A rejected move leaves the session exactly as it was, so resubmitting the
/// same move meets the same state and is rejected with the same error again.
pub proof fn lemma_rejection_idempotent(g: GameView, mover_white: bool, san: Seq<char>)
    requires
        move_decision(g, mover_white, san) is Rejected,
    ensures
        game_after(g, mover_white, san) == g,
        move_decision(game_after(g, mover_white, san), mover_white, san) == move_decision(
            g,
            mover_white,
            san,
        ),
{
}

/// Repetition counting is keyed by the canonical key of the position the move
/// reaches: an accepted move the engine still calls ongoing, under the
/// fifty-move bound, raises the count of exactly that key by one and touches
/// no other.
pub proof fn lemma_repetition_keyed_canonically(g: GameView, mover_white: bool, san: Seq<char>)
    requires
        !(move_decision(g, mover_white, san) is Rejected),
        engine::ending_of(engine::next_fen(g.fen, san)) is Ongoing,
        engine::clock_of(engine::next_fen(g.fen, san)) < 100,
        count_of(g.rep_counts, repetition::canonical_key_spec(engine::next_fen(g.fen, san))) < 3,
    ensures
        count_of(
            game_after(g, mover_white, san).rep_counts,
            repetition::canonical_key_spec(engine::next_fen(g.fen, san)),
        ) == count_of(g.rep_counts, repetition::canonical_key_spec(engine::next_fen(g.fen, san)))
            + 1,
        forall|k: Seq<char>|
            k != repetition::canonical_key_spec(engine::next_fen(g.fen, san)) ==> #[trigger] count_of(
                game_after(g, mover_white, san).rep_counts,
                k,
            ) == count_of(g.rep_counts, k),
{
}

/// Repetition counts never decrease: a move leaves every canonical key's
/// count where it was, or raises the reached key's count by one.
pub proof fn lemma_repetition_counts_monotone(
    g: GameView,
    mover_white: bool,
    san: Seq<char>,
    k: Seq<char>,
)
    requires
        g.inv(),
    ensures
        count_of(g.rep_counts, k) <= count_of(game_after(g, mover_white, san).rep_counts, k),
        count_of(game_after(g, mover_white, san).rep_counts, k) <= count_of(g.rep_counts, k) + 1,
{
}

/// Threefold repetition: an accepted move into an otherwise ongoing position,
/// under the fifty-move bound, whose canonical key has already been counted
/// twice draws the game on its third occurrence.
pub proof fn lemma_threefold_draw(g: GameView, mover_white: bool, san: Seq<char>)
    requires
        mover_white == g.turn_white,
        engine::fen_ok(g.fen),
        engine::san_ok(san),
        engine::move_ok(g.fen, san),
        engine::ending_of(engine::next_fen(g.fen, san)) is Ongoing,
        engine::clock_of(engine::next_fen(g.fen, san)) < 100,
        count_of(g.rep_counts, repetition::canonical_key_spec(engine::next_fen(g.fen, san))) == 2,
    ensures
        move_decision(g, mover_white, san) is Draw,
        count_of(
            game_after(g, mover_white, san).rep_counts,
            repetition::canonical_key_spec(engine::next_fen(g.fen, san)),
        ) == 3,
{
}

/// The fifty-move rule: an accepted move into a position the engine does not
/// itself classify, with half-move clock at least 100, draws the game.
pub proof fn lemma_fifty_move_draw(g: GameView, mover_white: bool, san: Seq<char>)
    requires
        mover_white == g.turn_white,
        engine::fen_ok(g.fen),
        engine::san_ok(san),
        engine::move_ok(g.fen, san),
        engine::ending_of(engine::next_fen(g.fen, san)) is Ongoing,
        engine::clock_of(engine::next_fen(g.fen, san)) >= 100,
    ensures
        move_decision(g, mover_white, san) is Draw,
{
}

/// One live two-player session: seats, position, turn and repetition table.
pub struct Game {
    pub player_white: String,
    pub player_black: Option<String>,
    pub fen: String,
    pub turn_white: bool,
    pub rep_counts: Table<u32>,
}

impl View for Game {
    type V = GameView;

    open spec fn view(&self) -> GameView {
        GameView {
            player_white: self.player_white@,
            player_black: match self.player_black {
                Some(ref b) => Some(b@),
                None => None,
            },
            fen: self.fen@,
            turn_white: self.turn_white,
            rep_counts: self.rep_counts@,
        }
    }
}

impl Game {
    /// Well-formed: the repetition table representation is sound and the
    /// abstract invariant holds.
    pub open spec fn wf(&self) -> bool {
        self.rep_counts.wf() && self@.inv()
    }

    /// Creates the session a first connecting player opens: that player takes
    /// the white seat, the black seat stays empty, the position is the
    /// starting one, white is to move and nothing has repeated yet.
    pub fn new(white: &str) -> (r: Game)
        requires
            white@.len() > 0,
        ensures
            r.wf(),
            r@ == (GameView {
                player_white: white@,
                player_black: None,
                fen: engine::initial_fen_spec(),
                turn_white: true,
                rep_counts: Map::empty(),
            }),
    {
        Game {
            player_white: white.to_owned(),
            player_black: None,
            fen: engine::initial_fen(),
            turn_white: true,
            rep_counts: Table::new(),
        }
    }

    /// Whether `id` holds the white seat.
    pub fn is_white_player(&self, id: &str) -> (r: bool)
        ensures
            r == (self@.player_white == id@),
    {
        let owned = id.to_owned();
        self.player_white == owned
    }

    /// Whether `id` holds either seat.
    pub fn is_member(&self, id: &str) -> (r: bool)
        ensures
            r == (self@.player_white == id@ || self@.player_black == Some(id@)),
    {
        if self.is_white_player(id) {
            return true;
        }
        match self.player_black {
            Some(ref b) => {
                let owned = id.to_owned();
                *b == owned
            },
            None => false,
        }
    }

    /// Applies one submitted move, as `move_decision` prescribes, mutating the
    /// session exactly as `game_after` prescribes. Only a terminal effect may
    /// break the invariant's count bound — and such a session is immediately
    /// removed from the directory.
    pub fn apply_move(&mut self, mover_white: bool, san: &str) -> (r: MoveEffect)
        requires
            old(self).wf(),
        ensures
            r == move_decision(old(self)@, mover_white, san@),
            final(self)@ == game_after(old(self)@, mover_white, san@),
            final(self).rep_counts.wf(),
            !is_terminal(r) ==> final(self).wf(),
            r is Rejected ==> *final(self) == *old(self),
            final(self).player_white == old(self).player_white,
            final(self).player_black == old(self).player_black,
    {
        if mover_white != self.turn_white {
            return MoveEffect::Rejected(MoveError::WrongTurn);
        }
        let stepped = engine::engine_apply(self.fen.as_str(), san);
        match stepped {
            Err(EngineReject::InvalidFen) => MoveEffect::Rejected(MoveError::IllegalPosition),
            Err(EngineReject::InvalidSan) => MoveEffect::Rejected(MoveError::IllegalSan),
            Err(EngineReject::IllegalMove) => MoveEffect::Rejected(MoveError::IllegalMove),
            Ok(nf) => {
                let verdict = match engine::engine_classify(nf.as_str()) {
                    Some(v) => v,
                    None => unreached(),
                };
                self.fen = nf;
                self.turn_white = !self.turn_white;
                match verdict.ending {
                    Ending::WhiteWins => MoveEffect::Decisive { winner_white: true },
                    Ending::BlackWins => MoveEffect::Decisive { winner_white: false },
                    Ending::Draw => MoveEffect::Draw,
                    Ending::Ongoing => {
                        if verdict.halfmoves >= 100 {
                            MoveEffect::Draw
                        } else {
                            let key = repetition::canonical_key(self.fen.as_str());
                            let prev: u32 = match self.rep_counts.get(key.as_str()) {
                                Some(c) => *c,
                                None => 0,
                            };
                            let cnt = prev + 1;
                            self.rep_counts.insert(key.as_str(), cnt);
                            if cnt >= 3 {
                                MoveEffect::Draw
                            } else {
                                MoveEffect::Update
                            }
                        }
                    },
                }
            },
        }
    }
}

} // verus!

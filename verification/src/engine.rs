//! The rules-engine capability: parsing positions and moves, applying a move,
//! classifying outcomes and reading the half-move clock.
//!
//! A position travels through the session core only in its serialized form (a
//! FEN string), so every capability here is a function from plain strings to
//! plain values. What the engine computes is deterministic in its arguments;
//! results that would take pages to state are given names (`next_fen`,
//! `ending_of`, `clock_of`) that the rest of the library reasons with.

use vstd::prelude::*;
use vstd::string::StringExecFns;
use shakmaty::fen::Fen;
use shakmaty::san::San;
use shakmaty::{CastlingMode, Chess, Color, EnPassantMode, KnownOutcome, Outcome, Position};

verus! {

/// How the rules engine classifies a position.
#[derive(Clone, Copy, Debug, PartialEq, Eq, Structural)]
pub enum Ending {
    WhiteWins,
    BlackWins,
    Draw,
    Ongoing,
}

/// Why the rules engine rejected a submitted move.
#[derive(Clone, Copy, Debug, PartialEq, Eq, Structural)]
pub enum EngineReject {
    /// The serialized position did not parse into a legal position.
    InvalidFen,
    /// The move text was not valid standard algebraic notation.
    InvalidSan,
    /// The move is not legal in the given position.
    IllegalMove,
}

/// What the rules engine reports of one position: its classification and the
/// half-move clock (moves since the last capture or pawn advance).
#[derive(Clone, Copy, Debug, PartialEq, Eq, Structural)]
pub struct Verdict {
    pub ending: Ending,
    pub halfmoves: u32,
}

/// Whether the rules engine accepts `fen` as a legal standard-chess position.
pub uninterp spec fn fen_ok(fen: Seq<char>) -> bool;

/// Whether `san` is syntactically valid standard algebraic notation.
pub uninterp spec fn san_ok(san: Seq<char>) -> bool;

/// Whether `san` names a legal move in the position serialized as `fen`.
pub uninterp spec fn move_ok(fen: Seq<char>, san: Seq<char>) -> bool;

/// The serialized position reached by playing `san` in the position `fen`.
pub uninterp spec fn next_fen(fen: Seq<char>, san: Seq<char>) -> Seq<char>;

/// The rules engine's outcome classification of the position `fen`.
pub uninterp spec fn ending_of(fen: Seq<char>) -> Ending;

/// The half-move clock of the position `fen`.
pub uninterp spec fn clock_of(fen: Seq<char>) -> u32;

/// Applies one move, given in standard algebraic notation, to a serialized
/// position, and returns the resulting serialized position.
///
/// Relies on shakmaty: `Fen::from_str` and `Fen::into_position` (standard
/// castling) to read the position, `San::from_str` and `San::to_move` to read
/// the move, `Position::play` to apply it, and `Fen::from_position` (legal
/// en-passant squares) to serialize the result. A position reached by legal
/// play from a legal position serializes to a FEN the engine accepts again.
#[verifier::external_body]
pub fn engine_apply(fen: &str, san: &str) -> (r: Result<String, EngineReject>)
    ensures
        ((r matches Err(EngineReject::InvalidFen)) <==> !fen_ok(fen@)),
        fen_ok(fen@) ==> ((r matches Err(EngineReject::InvalidSan)) <==> !san_ok(san@)),
        (fen_ok(fen@) && san_ok(san@)) ==> ((r matches Err(EngineReject::IllegalMove)) <==> !move_ok(
            fen@,
            san@,
        )),
        ((r is Ok) <==> (fen_ok(fen@) && san_ok(san@) && move_ok(fen@, san@))),
        r matches Ok(nf) ==> nf@ == next_fen(fen@, san@) && fen_ok(nf@),
{
    let pos: Chess = fen
        .parse::<Fen>()
        .map_err(|_| EngineReject::InvalidFen)?
        .into_position(CastlingMode::Standard)
        .map_err(|_| EngineReject::InvalidFen)?;
    let mv = san.parse::<San>().map_err(|_| EngineReject::InvalidSan)?.to_move(&pos).map_err(
        |_| EngineReject::IllegalMove,
    )?;
    let next = pos.play(mv).map_err(|_| EngineReject::IllegalMove)?;
    Ok(Fen::from_position(&next, EnPassantMode::Legal).to_string())
}

/// Classifies a serialized position and reads its half-move clock, or returns
/// `None` if the position does not parse.
///
/// Relies on shakmaty: `Fen::from_str` and `Fen::into_position` to read the
/// position, `Position::outcome` (checkmate, stalemate or insufficient
/// material) and `Position::halfmoves`.
#[verifier::external_body]
pub fn engine_classify(fen: &str) -> (r: Option<Verdict>)
    ensures
        ((r is Some) <==> fen_ok(fen@)),
        r matches Some(v) ==> v.ending == ending_of(fen@) && v.halfmoves == clock_of(fen@),
{
    let pos: Chess = fen.parse::<Fen>().ok()?.into_position(CastlingMode::Standard).ok()?;
    let ending = match pos.outcome() {
        Outcome::Known(KnownOutcome::Decisive { winner: Color::White }) => Ending::WhiteWins,
        Outcome::Known(KnownOutcome::Decisive { winner: Color::Black }) => Ending::BlackWins,
        Outcome::Known(KnownOutcome::Draw) => Ending::Draw,
        Outcome::Unknown => Ending::Ongoing,
    };
    Some(Verdict { ending, halfmoves: pos.halfmoves() })
}

/// The serialized starting position of a standard game.
pub open spec fn initial_fen_spec() -> Seq<char> {
    "rnbqkbnr/pppppppp/8/8/8/8/PPPPPPPP/RNBQKBNR w KQkq - 0 1"@
}

/// Returns the serialized starting position of a standard game.
pub fn initial_fen() -> (r: String)
    ensures
        r@ == initial_fen_spec(),
{
    String::from_str("rnbqkbnr/pppppppp/8/8/8/8/PPPPPPPP/RNBQKBNR w KQkq - 0 1")
}

} // verus!

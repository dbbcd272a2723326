//! The two counted draw rules, driven through real play: threefold repetition
//! and the fifty-move rule, plus the canonical key they share.

use livechess::directory::{ChessApi, MatchResult, StepReply};
use livechess::repetition::canonical_key;
use livechess::session::Game;
use livechess::table::Table;

fn two_player_directory() -> (Table<Game>, String) {
    let mut games: Table<Game> = Table::new();
    let game_id = match ChessApi::connect(&mut games, "A", "game-1") {
        MatchResult::Created { game_id } => game_id,
        _ => panic!("first connection must create a session"),
    };
    match ChessApi::connect(&mut games, "B", "game-2") {
        MatchResult::Joined { .. } => {}
        _ => panic!("second connection must claim the open seat"),
    }
    (games, game_id)
}

#[test]
fn canonical_key_drops_move_counters() {
    assert_eq!(
        canonical_key("rnbqkbnr/pppppppp/8/8/8/8/PPPPPPPP/RNBQKBNR w KQkq - 0 1"),
        "rnbqkbnr/pppppppp/8/8/8/8/PPPPPPPP/RNBQKBNR w KQkq -"
    );
    assert_eq!(
        canonical_key("rnbqkbnr/pppppppp/8/8/8/8/PPPPPPPP/RNBQKBNR w KQkq - 37 99"),
        canonical_key("rnbqkbnr/pppppppp/8/8/8/8/PPPPPPPP/RNBQKBNR w KQkq - 0 1")
    );
}

#[test]
fn canonical_key_keeps_short_text_whole() {
    assert_eq!(canonical_key("a b c"), "a b c");
    assert_eq!(canonical_key(""), "");
}

#[test]
fn canonical_key_recomputed_from_position_fields_matches() {
    // The key used for counting is recomputable from the resulting position's
    // board, side to move, castling rights and en-passant target alone.
    let fen = "rnbqkbnr/pppppppp/8/8/4P3/8/PPPPPPPP/RNBQKBNR b KQkq - 0 1";
    let fields: Vec<&str> = fen.split_whitespace().collect();
    let independent = fields[0..4].join(" ");
    assert_eq!(canonical_key(fen), independent);
}

#[test]
fn threefold_repetition_draws_on_third_occurrence() {
    let (mut games, game_id) = two_player_directory();
    let shuffle = [
        ("A", "Nf3"),
        ("B", "Nf6"),
        ("A", "Ng1"),
        ("B", "Ng8"),
    ];
    // Two full shuffles put the position after 1.Nf3 on the board twice; the
    // ninth half-move reaches it a third time.
    for _round in 0..2 {
        for (mover, san) in shuffle.iter() {
            match ChessApi::step_move(&mut games, &game_id, mover, san) {
                StepReply::Broadcast { message, removed, .. } => {
                    assert!(message.starts_with("{\"type\":\"update\""));
                    assert!(!removed);
                }
                _ => panic!("shuffle moves must be accepted"),
            }
        }
    }
    match ChessApi::step_move(&mut games, &game_id, "A", "Nf3") {
        StepReply::Broadcast { message, removed, .. } => {
            assert_eq!(message, "{\"type\":\"draw\"}");
            assert!(removed);
        }
        _ => panic!("the repeating move must be accepted"),
    }
    assert!(ChessApi::init_message_for(&games, &game_id, "A").is_none());
}

#[test]
fn fifty_move_rule_draws_at_clock_one_hundred() {
    let mut games: Table<Game> = Table::new();
    let mut game = Game::new("A");
    game.player_black = Some(String::from("B"));
    game.fen = String::from("k7/8/8/8/8/8/8/K6R w - - 99 80");
    games.insert("game-1", game);
    match ChessApi::step_move(&mut games, "game-1", "A", "Rh2") {
        StepReply::Broadcast { message, removed, .. } => {
            assert_eq!(message, "{\"type\":\"draw\"}");
            assert!(removed);
        }
        _ => panic!("a quiet move at clock 99 must be accepted"),
    }
    assert!(ChessApi::init_message_for(&games, "game-1", "A").is_none());
}

#[test]
fn stalemate_is_an_engine_draw() {
    let mut games: Table<Game> = Table::new();
    let mut game = Game::new("A");
    game.player_black = Some(String::from("B"));
    // After the queen slides to b6 the black king on a8 has no move and is
    // not in check.
    game.fen = String::from("k7/8/8/1Q6/8/8/8/K7 w - - 0 1");
    games.insert("game-1", game);
    match ChessApi::step_move(&mut games, "game-1", "A", "Qb6") {
        StepReply::Broadcast { message, removed, .. } => {
            assert_eq!(message, "{\"type\":\"draw\"}");
            assert!(removed);
        }
        _ => panic!("the stalemating move must be accepted"),
    }
}

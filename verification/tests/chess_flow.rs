//! End-to-end session flows against the real rules engine: matchmaking,
//! greetings, move broadcasts, turn enforcement and disconnection.

use livechess::directory::{ChessApi, DisconnectReply, MatchResult, StepReply};
use livechess::protocol;
use livechess::session::Game;
use livechess::table::Table;

const INITIAL_FEN: &str = "rnbqkbnr/pppppppp/8/8/8/8/PPPPPPPP/RNBQKBNR w KQkq - 0 1";

fn two_player_directory() -> (Table<Game>, String) {
    let mut games: Table<Game> = Table::new();
    let created = ChessApi::connect(&mut games, "A", "game-1");
    let game_id = match created {
        MatchResult::Created { game_id } => game_id,
        _ => panic!("first connection must create a session"),
    };
    match ChessApi::connect(&mut games, "B", "game-2") {
        MatchResult::Joined { game_id: joined_id, waiting_white } => {
            assert_eq!(joined_id, game_id);
            assert_eq!(waiting_white, "A");
        }
        _ => panic!("second connection must claim the open seat"),
    }
    (games, game_id)
}

#[test]
fn first_connection_creates_and_greets_as_white() {
    let mut games: Table<Game> = Table::new();
    let created = ChessApi::connect(&mut games, "A", "game-1");
    let game_id = match created {
        MatchResult::Created { game_id } => game_id,
        _ => panic!("first connection must create a session"),
    };
    assert_eq!(game_id, "game-1");
    let init = ChessApi::init_message_for(&games, &game_id, "A").expect("session exists");
    assert_eq!(
        init,
        format!(
            "{{\"type\":\"init\",\"fen\":\"{}\",\"turn_white\":true,\"your_color\":\"white\",\"opponent\":null}}",
            INITIAL_FEN
        )
    );
}

#[test]
fn second_connection_joins_and_greets_as_black() {
    let (games, game_id) = two_player_directory();
    assert_eq!(
        protocol::opponent_joined_message("B"),
        "{\"type\":\"opponent_joined\",\"opponent\":\"B\"}"
    );
    let init = ChessApi::init_message_for(&games, &game_id, "B").expect("session exists");
    assert_eq!(
        init,
        format!(
            "{{\"type\":\"init\",\"fen\":\"{}\",\"turn_white\":true,\"your_color\":\"black\",\"opponent\":\"A\"}}",
            INITIAL_FEN
        )
    );
}

#[test]
fn member_reconnection_rejoins_same_session() {
    let (mut games, game_id) = two_player_directory();
    match ChessApi::connect(&mut games, "A", "game-9") {
        MatchResult::Rejoined { game_id: rejoined } => assert_eq!(rejoined, game_id),
        _ => panic!("a seated identity must rejoin its session"),
    }
}

#[test]
fn taken_candidate_id_is_reported() {
    let (mut games, _game_id) = two_player_directory();
    match ChessApi::connect(&mut games, "C", "game-1") {
        MatchResult::IdInUse => {}
        _ => panic!("a taken candidate id must be reported"),
    }
}

#[test]
fn fresh_ids_are_drawn_for_created_sessions() {
    let mut games: Table<Game> = Table::new();
    match ChessApi::connect_auto(&mut games, "A") {
        MatchResult::Created { game_id } => assert_eq!(game_id.len(), 36),
        _ => panic!("an empty directory must create a session"),
    }
}

#[test]
fn legal_opening_move_is_broadcast_and_flips_turn() {
    let (mut games, game_id) = two_player_directory();
    match ChessApi::step_move(&mut games, &game_id, "A", "e4") {
        StepReply::Broadcast { message, white, black, removed } => {
            assert_eq!(
                message,
                "{\"type\":\"update\",\"fen\":\"rnbqkbnr/pppppppp/8/8/4P3/8/PPPP1PPP/RNBQKBNR b KQkq - 0 1\"}"
            );
            assert_eq!(white, "A");
            assert_eq!(black.as_deref(), Some("B"));
            assert!(!removed);
        }
        _ => panic!("a legal opening move must be broadcast"),
    }
    let init = ChessApi::init_message_for(&games, &game_id, "A").expect("session remains");
    assert!(init.contains("\"turn_white\":false"));
}

#[test]
fn move_out_of_turn_is_rejected_to_sender_alone() {
    let (mut games, game_id) = two_player_directory();
    let before = ChessApi::init_message_for(&games, &game_id, "B").expect("session exists");
    match ChessApi::step_move(&mut games, &game_id, "B", "e5") {
        StepReply::ErrorToMover { message } => {
            assert_eq!(message, "{\"type\":\"error\",\"message\":\"Not your turn\"}");
        }
        _ => panic!("a move out of turn must be rejected"),
    }
    let after = ChessApi::init_message_for(&games, &game_id, "B").expect("session remains");
    assert_eq!(before, after);
}

#[test]
fn resubmitted_illegal_move_gives_same_error_twice() {
    let (mut games, game_id) = two_player_directory();
    for _ in 0..2 {
        match ChessApi::step_move(&mut games, &game_id, "A", "Ke2") {
            StepReply::ErrorToMover { message } => {
                assert_eq!(message, "{\"type\":\"error\",\"message\":\"Invalid move\"}");
            }
            _ => panic!("an illegal move must be rejected"),
        }
    }
    let init = ChessApi::init_message_for(&games, &game_id, "A").expect("session remains");
    assert!(init.contains(INITIAL_FEN));
}

#[test]
fn malformed_move_text_is_rejected_as_invalid_san() {
    let (mut games, game_id) = two_player_directory();
    match ChessApi::step_move(&mut games, &game_id, "A", "not a move") {
        StepReply::ErrorToMover { message } => {
            assert_eq!(message, "{\"type\":\"error\",\"message\":\"Invalid SAN\"}");
        }
        _ => panic!("unparsable move text must be rejected"),
    }
}

#[test]
fn corrupt_stored_position_is_rejected_as_invalid_board() {
    let mut games: Table<Game> = Table::new();
    let mut game = Game::new("A");
    game.player_black = Some(String::from("B"));
    game.fen = String::from("not a position");
    games.insert("game-1", game);
    match ChessApi::step_move(&mut games, "game-1", "A", "e4") {
        StepReply::ErrorToMover { message } => {
            assert_eq!(message, "{\"type\":\"error\",\"message\":\"Invalid board state\"}");
        }
        _ => panic!("a corrupt position must be rejected"),
    }
}

#[test]
fn unknown_session_or_outsider_is_ignored() {
    let (mut games, game_id) = two_player_directory();
    match ChessApi::step_move(&mut games, "no-such-game", "A", "e4") {
        StepReply::Ignored => {}
        _ => panic!("an unknown session must be ignored"),
    }
    match ChessApi::step_move(&mut games, &game_id, "C", "e4") {
        StepReply::Ignored => {}
        _ => panic!("an identity without a seat must be ignored"),
    }
}

#[test]
fn checkmate_broadcasts_win_and_removes_session() {
    let (mut games, game_id) = two_player_directory();
    for (mover, san) in [("A", "f3"), ("B", "e5"), ("A", "g4")] {
        match ChessApi::step_move(&mut games, &game_id, mover, san) {
            StepReply::Broadcast { removed, .. } => assert!(!removed),
            _ => panic!("moves toward the mate must be accepted"),
        }
    }
    match ChessApi::step_move(&mut games, &game_id, "B", "Qh4#") {
        StepReply::Broadcast { message, removed, .. } => {
            assert_eq!(message, "{\"type\":\"win\",\"winner\":\"B\"}");
            assert!(removed);
        }
        _ => panic!("the mating move must be accepted"),
    }
    assert!(ChessApi::init_message_for(&games, &game_id, "A").is_none());
}

#[test]
fn disconnection_forces_win_and_removes_session() {
    let (mut games, game_id) = two_player_directory();
    let DisconnectReply { removed, opponent } = ChessApi::disconnect(&mut games, &game_id, "A");
    assert!(removed);
    assert_eq!(opponent.as_deref(), Some("B"));
    assert_eq!(
        protocol::disconnect_win_message(),
        "{\"type\":\"win\",\"reason\":\"opponent disconnected\"}"
    );
    assert!(ChessApi::init_message_for(&games, &game_id, "B").is_none());
}

#[test]
fn disconnection_while_awaiting_opponent_notifies_nobody() {
    let mut games: Table<Game> = Table::new();
    let game_id = match ChessApi::connect(&mut games, "A", "game-1") {
        MatchResult::Created { game_id } => game_id,
        _ => panic!("first connection must create a session"),
    };
    let reply = ChessApi::disconnect(&mut games, &game_id, "A");
    assert!(reply.removed);
    assert!(reply.opponent.is_none());
    assert!(ChessApi::init_message_for(&games, &game_id, "A").is_none());
}

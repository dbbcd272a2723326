//! The wire protocol: one JSON object per frame.
//!
//! Outbound messages are built here, character for character, against spec
//! functions that pin the exact text. Inbound frames carry at most one
//! command, `{"move": <text>}`; any other shape is ignored. Names and
//! positions are spliced into the JSON verbatim, as the service has always
//! done.

use vstd::prelude::*;
use vstd::string::StringExecFns;
use crate::session::MoveError;

verus! {

/// The text a JSON string value with content `s` occupies on the wire.
pub open spec fn quoted(s: Seq<char>) -> Seq<char> {
    "\""@ + s + "\""@
}

/// The wire text of a boolean.
pub open spec fn bool_text(b: bool) -> Seq<char> {
    if b {
        "true"@
    } else {
        "false"@
    }
}

/// The greeting sent once, right after the connection is established.
pub open spec fn init_message_spec(
    fen: Seq<char>,
    turn_white: bool,
    viewer_white: bool,
    opponent: Option<Seq<char>>,
) -> Seq<char> {
    "{\"type\":\"init\",\"fen\":\""@ + fen + "\",\"turn_white\":"@ + bool_text(turn_white)
        + ",\"your_color\":\""@ + (if viewer_white {
        "white"@
    } else {
        "black"@
    }) + "\",\"opponent\":"@ + (match opponent {
        Some(o) => quoted(o),
        None => "null"@,
    }) + "}"@
}

/// Sent to the waiting player when the empty seat is claimed.
pub open spec fn opponent_joined_message_spec(opponent: Seq<char>) -> Seq<char> {
    "{\"type\":\"opponent_joined\",\"opponent\":\""@ + opponent + "\"}"@
}

/// Sent to both players after a non-terminal accepted move.
pub open spec fn update_message_spec(fen: Seq<char>) -> Seq<char> {
    "{\"type\":\"update\",\"fen\":\""@ + fen + "\"}"@
}

/// Sent to both players when a move decides the game.
pub open spec fn win_message_spec(winner: Seq<char>) -> Seq<char> {
    "{\"type\":\"win\",\"winner\":\""@ + winner + "\"}"@
}

/// Sent to the remaining player when the opponent's connection ends.
pub open spec fn disconnect_win_message_spec() -> Seq<char> {
    "{\"type\":\"win\",\"reason\":\"opponent disconnected\"}"@
}

/// Sent to both players when a move draws the game.
pub open spec fn draw_message_spec() -> Seq<char> {
    "{\"type\":\"draw\"}"@
}

/// Sent to the offending sender alone when a move is rejected.
pub open spec fn error_message_spec(e: MoveError) -> Seq<char> {
    match e {
        MoveError::WrongTurn => "{\"type\":\"error\",\"message\":\"Not your turn\"}"@,
        MoveError::IllegalPosition => "{\"type\":\"error\",\"message\":\"Invalid board state\"}"@,
        MoveError::IllegalSan => "{\"type\":\"error\",\"message\":\"Invalid SAN\"}"@,
        MoveError::IllegalMove => "{\"type\":\"error\",\"message\":\"Invalid move\"}"@,
    }
}

/// Builds the greeting frame.
pub fn init_message(fen: &str, turn_white: bool, viewer_white: bool, opponent: Option<&str>) -> (r:
    String)
    ensures
        r@ == init_message_spec(
            fen@,
            turn_white,
            viewer_white,
            match opponent {
                Some(o) => Some(o@),
                None => None,
            },
        ),
{
    let mut s = String::from_str("{\"type\":\"init\",\"fen\":\"");
    s.append(fen);
    s.append("\",\"turn_white\":");
    s.append(if turn_white {
        "true"
    } else {
        "false"
    });
    s.append(",\"your_color\":\"");
    s.append(if viewer_white {
        "white"
    } else {
        "black"
    });
    s.append("\",\"opponent\":");
    match opponent {
        Some(o) => {
            s.append("\"");
            s.append(o);
            s.append("\"");
        },
        None => {
            s.append("null");
        },
    }
    s.append("}");
    proof {
        assert(s@ =~= init_message_spec(
            fen@,
            turn_white,
            viewer_white,
            match opponent {
                Some(o) => Some(o@),
                None => None,
            },
        ));
    }
    s
}

/// Builds the seat-claimed notification.
pub fn opponent_joined_message(opponent: &str) -> (r: String)
    ensures
        r@ == opponent_joined_message_spec(opponent@),
{
    let mut s = String::from_str("{\"type\":\"opponent_joined\",\"opponent\":\"");
    s.append(opponent);
    s.append("\"}");
    proof {
        assert(s@ =~= opponent_joined_message_spec(opponent@));
    }
    s
}

/// Builds the position-update frame.
pub fn update_message(fen: &str) -> (r: String)
    ensures
        r@ == update_message_spec(fen@),
{
    let mut s = String::from_str("{\"type\":\"update\",\"fen\":\"");
    s.append(fen);
    s.append("\"}");
    proof {
        assert(s@ =~= update_message_spec(fen@));
    }
    s
}

/// Builds the decisive-win frame.
pub fn win_message(winner: &str) -> (r: String)
    ensures
        r@ == win_message_spec(winner@),
{
    let mut s = String::from_str("{\"type\":\"win\",\"winner\":\"");
    s.append(winner);
    s.append("\"}");
    proof {
        assert(s@ =~= win_message_spec(winner@));
    }
    s
}

/// Builds the forced-win frame for a disconnection.
pub fn disconnect_win_message() -> (r: String)
    ensures
        r@ == disconnect_win_message_spec(),
{
    String::from_str("{\"type\":\"win\",\"reason\":\"opponent disconnected\"}")
}

/// Builds the draw frame.
pub fn draw_message() -> (r: String)
    ensures
        r@ == draw_message_spec(),
{
    String::from_str("{\"type\":\"draw\"}")
}

/// Builds the rejection frame for the offending sender.
pub fn error_message(e: &MoveError) -> (r: String)
    ensures
        r@ == error_message_spec(*e),
{
    match e {
        MoveError::WrongTurn => String::from_str(
            "{\"type\":\"error\",\"message\":\"Not your turn\"}",
        ),
        MoveError::IllegalPosition => String::from_str(
            "{\"type\":\"error\",\"message\":\"Invalid board state\"}",
        ),
        MoveError::IllegalSan => String::from_str(
            "{\"type\":\"error\",\"message\":\"Invalid SAN\"}",
        ),
        MoveError::IllegalMove => String::from_str(
            "{\"type\":\"error\",\"message\":\"Invalid move\"}",
        ),
    }
}

/// The command an inbound frame carries: the string under the key `move` of a
/// JSON object, if the frame is such an object and has one.
pub uninterp spec fn move_command_of(text: Seq<char>) -> Option<Seq<char>>;

/// Relies on serde_json: `from_str` to parse the frame into a JSON value, and
/// `Value::get` with `Value::as_str` to read its `move` field as a string.
#[verifier::external_body]
fn decode_move_frame(text: &str) -> (r: Option<String>)
    ensures
        ((r is Some) <==> (move_command_of(text@) is Some)),
        r matches Some(s) ==> move_command_of(text@) == Some(s@),
{
    let parsed: serde_json::Value = serde_json::from_str(text).ok()?;
    parsed.get("move").and_then(|v| v.as_str()).map(|s| s.to_string())
}

/// Reads the move command out of one inbound frame, or nothing when the frame
/// has another shape — such a frame is silently ignored, with no reply and no
/// state change.
pub fn parse_move_command(text: &str) -> (r: Option<String>)
    ensures
        ((r is Some) <==> (move_command_of(text@) is Some)),
        r matches Some(s) ==> move_command_of(text@) == Some(s@),
{
    decode_move_frame(text)
}

} // verus!

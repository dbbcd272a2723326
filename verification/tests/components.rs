//! Unit coverage of the smaller components: the wire protocol, the inbound
//! decoder, the shared table, and the account, blog and admin decisions.

use livechess::admin::AdminApi;
use livechess::auth::{AuthApi, LoginDecision, User};
use livechess::blog::{user_reaction, BlogApi};
use livechess::general::GeneralApi;
use livechess::protocol;
use livechess::session::MoveError;
use livechess::table::Table;

#[test]
fn inbound_move_frames_are_decoded() {
    assert_eq!(
        protocol::parse_move_command("{\"move\":\"e4\"}").as_deref(),
        Some("e4")
    );
    assert_eq!(
        protocol::parse_move_command("{\"move\":\"Qh4#\",\"extra\":1}").as_deref(),
        Some("Qh4#")
    );
}

#[test]
fn other_frame_shapes_are_ignored() {
    assert!(protocol::parse_move_command("").is_none());
    assert!(protocol::parse_move_command("not json").is_none());
    assert!(protocol::parse_move_command("{\"move\":5}").is_none());
    assert!(protocol::parse_move_command("{\"other\":\"e4\"}").is_none());
    assert!(protocol::parse_move_command("[\"move\"]").is_none());
}

#[test]
fn outbound_messages_have_exact_wire_text() {
    assert_eq!(
        protocol::update_message("fen here"),
        "{\"type\":\"update\",\"fen\":\"fen here\"}"
    );
    assert_eq!(
        protocol::win_message("A"),
        "{\"type\":\"win\",\"winner\":\"A\"}"
    );
    assert_eq!(protocol::draw_message(), "{\"type\":\"draw\"}");
    assert_eq!(
        protocol::init_message("f", false, false, Some("A")),
        "{\"type\":\"init\",\"fen\":\"f\",\"turn_white\":false,\"your_color\":\"black\",\"opponent\":\"A\"}"
    );
    assert_eq!(
        protocol::init_message("f", true, true, None),
        "{\"type\":\"init\",\"fen\":\"f\",\"turn_white\":true,\"your_color\":\"white\",\"opponent\":null}"
    );
}

#[test]
fn each_rejection_has_its_message() {
    assert_eq!(
        protocol::error_message(&MoveError::WrongTurn),
        "{\"type\":\"error\",\"message\":\"Not your turn\"}"
    );
    assert_eq!(
        protocol::error_message(&MoveError::IllegalPosition),
        "{\"type\":\"error\",\"message\":\"Invalid board state\"}"
    );
    assert_eq!(
        protocol::error_message(&MoveError::IllegalSan),
        "{\"type\":\"error\",\"message\":\"Invalid SAN\"}"
    );
    assert_eq!(
        protocol::error_message(&MoveError::IllegalMove),
        "{\"type\":\"error\",\"message\":\"Invalid move\"}"
    );
}

#[test]
fn table_put_overwrites_and_remove_is_a_noop_when_absent() {
    let mut t: Table<u32> = Table::new();
    assert!(t.get("a").is_none());
    t.insert("a", 1);
    t.insert("b", 2);
    assert_eq!(t.get("a"), Some(&1));
    t.insert("a", 7);
    assert_eq!(t.get("a"), Some(&7));
    assert_eq!(t.get("b"), Some(&2));
    t.remove("missing");
    t.remove("a");
    assert!(t.get("a").is_none());
    assert_eq!(t.get("b"), Some(&2));
    assert!(t.contains_key("b"));
    assert!(!t.contains_key("a"));
}

#[test]
fn password_hash_is_the_digest_of_the_trimmed_text() {
    let expected = "5e884898da28047151d0e56f8dc6292773603d0d6aabbdd62a11ef721d1542d8";
    assert_eq!(livechess::auth::password_hash("password"), expected);
    assert_eq!(livechess::auth::password_hash("  password \n"), expected);
    assert_ne!(livechess::auth::password_hash("Password"), expected);
}

#[test]
fn login_is_refused_without_a_match_and_issued_with_one() {
    match AuthApi::login_decision(None) {
        LoginDecision::Unauthorized => {}
        _ => panic!("no match must be refused"),
    }
    assert_eq!(AuthApi::invalid_credentials_text(), "invalid credentials");
    let user = User { user_id: 9, username: String::from("ada"), is_admin: false };
    match AuthApi::login_decision(Some(user)) {
        LoginDecision::IssueToken(u) => {
            assert_eq!(u.user_id, 9);
            assert_eq!(u.username, "ada");
        }
        _ => panic!("a match must be issued a token"),
    }
}

#[test]
fn reaction_reading_mirrors_the_stored_row() {
    assert_eq!(user_reaction(Some(true)), (true, false));
    assert_eq!(user_reaction(Some(false)), (false, true));
    assert_eq!(user_reaction(None), (false, false));
}

#[test]
fn like_toggle_updates_counts_and_row() {
    let fresh = BlogApi::like_change(false, false);
    assert_eq!((fresh.like_delta, fresh.dislike_delta, fresh.store), (1, 0, Some(true)));
    let over_dislike = BlogApi::like_change(false, true);
    assert_eq!(
        (over_dislike.like_delta, over_dislike.dislike_delta, over_dislike.store),
        (1, -1, Some(true))
    );
    let withdraw = BlogApi::like_change(true, false);
    assert_eq!((withdraw.like_delta, withdraw.dislike_delta, withdraw.store), (-1, 0, None));
}

#[test]
fn dislike_toggle_updates_counts_and_row() {
    let fresh = BlogApi::dislike_change(false, false);
    assert_eq!((fresh.like_delta, fresh.dislike_delta, fresh.store), (0, 1, Some(false)));
    let over_like = BlogApi::dislike_change(true, false);
    assert_eq!(
        (over_like.like_delta, over_like.dislike_delta, over_like.store),
        (-1, 1, Some(false))
    );
    let withdraw = BlogApi::dislike_change(false, true);
    assert_eq!((withdraw.like_delta, withdraw.dislike_delta, withdraw.store), (0, -1, None));
}

#[test]
fn post_creation_is_admins_alone() {
    let admin = User { user_id: 1, username: String::from("root"), is_admin: true };
    let visitor = User { user_id: 2, username: String::from("eve"), is_admin: false };
    assert!(AdminApi::can_create_post(&admin));
    assert!(!AdminApi::can_create_post(&visitor));
    assert_eq!(AdminApi::invalid_permissions_text(), "invalid permissions");
}

#[test]
fn hello_answers_with_the_callers_name() {
    let user = User { user_id: 3, username: String::from("grace"), is_admin: false };
    assert_eq!(GeneralApi::hello(&user), "grace");
}

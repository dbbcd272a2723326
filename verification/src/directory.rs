//! The session directory and the matchmaker.
//!
//! The directory is the shared table from session id to live session. The
//! operations here are the critical sections the connection layer drives: a
//! connecting identity rejoins, claims an open seat or opens a session; a
//! submitted move steps one session's state machine and says who must hear
//! what; a closing connection forces a win for the opponent and retires the
//! session. Each returns plain instructions — messages and recipients — so
//! the caller can deliver them after releasing its lock.

use vstd::prelude::*;
use crate::engine;
use crate::protocol;
use crate::session::{
    Game, GameView, MoveEffect, game_after, is_terminal, move_decision, opt_view,
};
use crate::table::{lemma_table_map_at, lemma_table_map_domain, Table};

verus! {

/// The session endpoints of the service.
pub struct ChessApi {}

/// Whether `id` holds a seat of `g`.
pub open spec fn seated(g: GameView, id: Seq<char>) -> bool {
    g.player_white == id || g.player_black == Some(id)
}

/// Whether some session of the directory seats `id`.
pub open spec fn has_member(m: Map<Seq<char>, Game>, id: Seq<char>) -> bool {
    exists|k: Seq<char>| #[trigger] m.contains_key(k) && seated(m[k]@, id)
}

/// Whether some session of the directory has an empty black seat.
pub open spec fn has_open_seat(m: Map<Seq<char>, Game>) -> bool {
    exists|k: Seq<char>| #[trigger] m.contains_key(k) && m[k]@.player_black is None
}

/// Directory invariant: a sound table whose sessions are all well-formed.
pub open spec fn dir_inv(t: Table<Game>) -> bool {
    t.wf() && forall|k: Seq<char>| #[trigger] t@.contains_key(k) ==> t@[k].wf()
}

/// What matchmaking did for a connecting identity.
pub enum MatchResult {
    /// The identity already held a seat somewhere; nothing changed.
    Rejoined { game_id: String },
    /// The identity claimed an empty black seat. The waiting white player is
    /// owed an opponent-joined notification.
    Joined { game_id: String, waiting_white: String },
    /// No seat was open: a fresh session holds the identity as white.
    Created { game_id: String },
    /// The candidate session id is already taken; nothing changed. Retry with
    /// a fresh id.
    IdInUse,
}

/// What one submitted move asks the caller to deliver.
pub enum StepReply {
    /// No such session, or the mover holds no seat in it: nothing to send.
    Ignored,
    /// The move was rejected; the message goes to the mover alone.
    ErrorToMover { message: String },
    /// The move was accepted; the message goes to both seat holders, and
    /// `removed` says whether the session just ended and left the directory.
    Broadcast { message: String, white: String, black: Option<String>, removed: bool },
}

/// What a closed connection asks the caller to deliver.
pub struct DisconnectReply {
    /// Whether a session was found under the id and removed.
    pub removed: bool,
    /// The opponent owed the forced-win notification, if there is one.
    pub opponent: Option<String>,
}

/// The name a decisive outcome crowns: the seat holder of the winning color,
/// or empty text if the black seat never filled.
pub open spec fn winner_name(g: GameView, winner_white: bool) -> Seq<char> {
    if winner_white {
        g.player_white
    } else {
        match g.player_black {
            Some(b) => b,
            None => Seq::empty(),
        }
    }
}

/// Every session of a well-formed directory seats a white player, and its
/// black seat is empty exactly while it awaits an opponent.
pub proof fn lemma_seats_invariant(games: Table<Game>, k: Seq<char>)
    requires
        dir_inv(games),
        games@.contains_key(k),
    ensures
        games@[k]@.player_white.len() > 0,
        games@[k]@.awaiting_opponent() <==> games@[k]@.player_black is None,
{
}

/// The frame a submitted move produces: the rejection text to the mover, or
/// the update, win or draw text to both players.
pub open spec fn step_message_spec(g: GameView, mover_white: bool, san: Seq<char>) -> Seq<char> {
    match move_decision(g, mover_white, san) {
        MoveEffect::Rejected(err) => protocol::error_message_spec(err),
        MoveEffect::Update => protocol::update_message_spec(game_after(g, mover_white, san).fen),
        MoveEffect::Decisive { winner_white } => protocol::win_message_spec(
            winner_name(g, winner_white),
        ),
        MoveEffect::Draw => protocol::draw_message_spec(),
    }
}

/// Relies on uuid::Uuid::new_v4 and its hyphenated display form: a random
/// 36-character session id. Nothing more holds of a random id — in particular
/// not that it is unused, which `connect` must check.
#[verifier::external_body]
fn fresh_session_id() -> (r: String)
    ensures
        r@.len() == 36,
{
    uuid::Uuid::new_v4().to_string()
}

impl ChessApi {
    /// Matchmaking for a connecting identity, in order: rejoin the session
    /// already holding it, else claim any empty black seat, else open a fresh
    /// session under `candidate_id` with the identity as white. Among several
    /// open seats the choice carries no priority policy.
    pub fn connect(games: &mut Table<Game>, identity: &str, candidate_id: &str) -> (r: MatchResult)
        requires
            dir_inv(*old(games)),
            identity@.len() > 0,
        ensures
            dir_inv(*final(games)),
            r matches MatchResult::Rejoined { game_id } ==> final(games)@ == old(games)@
                && old(games)@.contains_key(game_id@) && seated(old(games)@[game_id@]@, identity@),
            has_member(old(games)@, identity@) ==> r is Rejoined,
            r matches MatchResult::Joined { game_id, waiting_white } ==> {
                &&& !has_member(old(games)@, identity@)
                &&& old(games)@.contains_key(game_id@)
                &&& old(games)@[game_id@]@.player_black is None
                &&& waiting_white@ == old(games)@[game_id@]@.player_white
                &&& final(games)@.dom() == old(games)@.dom()
                &&& final(games)@[game_id@]@ == (GameView {
                    player_black: Some(identity@),
                    ..old(games)@[game_id@]@
                })
                &&& forall|k: Seq<char>|
                    #[trigger] old(games)@.contains_key(k) && k != game_id@ ==> final(games)@[k]
                        == old(games)@[k]
            },
            (!has_member(old(games)@, identity@) && has_open_seat(old(games)@)) ==> r is Joined,
            r matches MatchResult::Created { game_id } ==> {
                &&& !has_member(old(games)@, identity@)
                &&& !has_open_seat(old(games)@)
                &&& game_id@ == candidate_id@
                &&& !old(games)@.contains_key(candidate_id@)
                &&& final(games)@.dom() == old(games)@.dom().insert(candidate_id@)
                &&& final(games)@[candidate_id@]@ == (GameView {
                    player_white: identity@,
                    player_black: None,
                    fen: engine::initial_fen_spec(),
                    turn_white: true,
                    rep_counts: Map::empty(),
                })
                &&& forall|k: Seq<char>|
                    #[trigger] old(games)@.contains_key(k) ==> final(games)@[k] == old(games)@[k]
            },
            (!has_member(old(games)@, identity@) && !has_open_seat(old(games)@)
                && !old(games)@.contains_key(candidate_id@)) ==> r is Created,
            (r is IdInUse) <==> (!has_member(old(games)@, identity@) && !has_open_seat(old(games)@)
                && old(games)@.contains_key(candidate_id@)),
            r is IdInUse ==> final(games)@ == old(games)@,
    {
        let n = games.entries.len();
        let mut i: usize = 0;
        while i < n
            invariant
                dir_inv(*games),
                *games == *old(games),
                n == games.entries@.len(),
                i <= n,
                forall|j: int| 0 <= j < i ==> !seated(games.entries@[j].1@, identity@),
            decreases n - i,
        {
            if games.entries[i].1.is_member(identity) {
                proof {
                    lemma_table_map_at(games.entries@, i as int);
                }
                let gid = games.entries[i].0.clone();
                return MatchResult::Rejoined { game_id: gid };
            }
            i = i + 1;
        }
        proof {
            if has_member(games@, identity@) {
                let k = choose|k: Seq<char>|
                    #[trigger] games@.contains_key(k) && seated(games@[k]@, identity@);
                lemma_table_map_domain(games.entries@, k);
                let j = choose|j: int|
                    0 <= j < games.entries@.len() && games.entries@[j].0@ == k;
                lemma_table_map_at(games.entries@, j);
                assert(false);
            }
        }
        let mut i: usize = 0;
        while i < n
            invariant
                dir_inv(*games),
                *games == *old(games),
                !has_member(games@, identity@),
                identity@.len() > 0,
                n == games.entries@.len(),
                i <= n,
                forall|j: int| 0 <= j < i ==> !(games.entries@[j].1@.player_black is None),
            decreases n - i,
        {
            if games.entries[i].1.player_black.is_none() {
                proof {
                    lemma_table_map_at(games.entries@, i as int);
                }
                let (gid, mut g) = games.remove_at(i);
                g.player_black = Some(identity.to_owned());
                let waiting = g.player_white.clone();
                let id_ret = gid.clone();
                games.insert(gid.as_str(), g);
                proof {
                    assert(games@.dom() =~= old(games)@.dom());
                }
                return MatchResult::Joined { game_id: id_ret, waiting_white: waiting };
            }
            i = i + 1;
        }
        proof {
            if has_open_seat(games@) {
                let k = choose|k: Seq<char>|
                    #[trigger] games@.contains_key(k) && games@[k]@.player_black is None;
                lemma_table_map_domain(games.entries@, k);
                let j = choose|j: int|
                    0 <= j < games.entries@.len() && games.entries@[j].0@ == k;
                lemma_table_map_at(games.entries@, j);
                assert(false);
            }
        }
        if games.contains_key(candidate_id) {
            return MatchResult::IdInUse;
        }
        let g = Game::new(identity);
        games.insert(candidate_id, g);
        proof {
            assert(games@.dom() =~= old(games)@.dom().insert(candidate_id@));
        }
        MatchResult::Created { game_id: candidate_id.to_owned() }
    }

    /// Matchmaking with a freshly drawn session id for the create case. A
    /// drawn id can collide with a live session, so the caller retries on
    /// `IdInUse`; every other result is as `connect` leaves it.
    pub fn connect_auto(games: &mut Table<Game>, identity: &str) -> (r: MatchResult)
        requires
            dir_inv(*old(games)),
            identity@.len() > 0,
        ensures
            dir_inv(*final(games)),
            r matches MatchResult::Rejoined { game_id } ==> final(games)@ == old(games)@
                && old(games)@.contains_key(game_id@) && seated(old(games)@[game_id@]@, identity@),
            has_member(old(games)@, identity@) ==> r is Rejoined,
            r matches MatchResult::Joined { game_id, waiting_white } ==> {
                &&& !has_member(old(games)@, identity@)
                &&& old(games)@.contains_key(game_id@)
                &&& old(games)@[game_id@]@.player_black is None
                &&& waiting_white@ == old(games)@[game_id@]@.player_white
                &&& final(games)@.dom() == old(games)@.dom()
                &&& final(games)@[game_id@]@ == (GameView {
                    player_black: Some(identity@),
                    ..old(games)@[game_id@]@
                })
                &&& forall|k: Seq<char>|
                    #[trigger] old(games)@.contains_key(k) && k != game_id@ ==> final(games)@[k]
                        == old(games)@[k]
            },
            (!has_member(old(games)@, identity@) && has_open_seat(old(games)@)) ==> r is Joined,
            r matches MatchResult::Created { game_id } ==> {
                &&& !has_member(old(games)@, identity@)
                &&& !has_open_seat(old(games)@)
                &&& !old(games)@.contains_key(game_id@)
                &&& final(games)@.dom() == old(games)@.dom().insert(game_id@)
                &&& final(games)@[game_id@]@ == (GameView {
                    player_white: identity@,
                    player_black: None,
                    fen: engine::initial_fen_spec(),
                    turn_white: true,
                    rep_counts: Map::empty(),
                })
                &&& forall|k: Seq<char>|
                    #[trigger] old(games)@.contains_key(k) ==> final(games)@[k] == old(games)@[k]
            },
            r is IdInUse ==> final(games)@ == old(games)@,
    {
        let candidate = fresh_session_id();
        Self::connect(games, identity, candidate.as_str())
    }

    /// The greeting for a viewer of one session: current position, whose turn
    /// it is, the viewer's color and the opponent, if one is seated. White is
    /// whoever holds the white seat; everyone else views as black.
    pub fn init_message_for(games: &Table<Game>, game_id: &str, viewer: &str) -> (r: Option<
        String,
    >)
        requires
            dir_inv(*games),
        ensures
            ((r is Some) <==> games@.contains_key(game_id@)),
            r matches Some(msg) ==> msg@ == protocol::init_message_spec(
                games@[game_id@]@.fen,
                games@[game_id@]@.turn_white,
                games@[game_id@]@.player_white == viewer@,
                if games@[game_id@]@.player_white == viewer@ {
                    games@[game_id@]@.player_black
                } else {
                    Some(games@[game_id@]@.player_white)
                },
            ),
    {
        match games.get(game_id) {
            None => None,
            Some(g) => {
                let viewer_white = g.is_white_player(viewer);
                let opponent: Option<&str> = if viewer_white {
                    match g.player_black {
                        Some(ref b) => Some(b.as_str()),
                        None => None,
                    }
                } else {
                    Some(g.player_white.as_str())
                };
                Some(protocol::init_message(g.fen.as_str(), g.turn_white, viewer_white, opponent))
            },
        }
    }

    /// Steps one session on a submitted move. A rejection is reported to the
    /// mover alone and changes nothing; an accepted move updates the session
    /// and is broadcast to both seat holders; a terminal outcome also retires
    /// the session. A move for an unknown session, or from an identity
    /// holding no seat in it, is ignored.
    pub fn step_move(games: &mut Table<Game>, game_id: &str, mover: &str, san: &str) -> (r:
        StepReply)
        requires
            dir_inv(*old(games)),
        ensures
            dir_inv(*final(games)),
            !old(games)@.contains_key(game_id@) ==> (r is Ignored && final(games)@ == old(games)@),
            (old(games)@.contains_key(game_id@) && !seated(
                old(games)@[game_id@]@,
                mover@,
            )) ==> (r is Ignored && final(games)@ == old(games)@),
            ((r is ErrorToMover) <==> (old(games)@.contains_key(game_id@) && seated(
                old(games)@[game_id@]@,
                mover@,
            ) && move_decision(
                old(games)@[game_id@]@,
                old(games)@[game_id@]@.player_white == mover@,
                san@,
            ) is Rejected)),
            r matches StepReply::ErrorToMover { message } ==> message@ == step_message_spec(
                old(games)@[game_id@]@,
                old(games)@[game_id@]@.player_white == mover@,
                san@,
            ) && final(games)@ == old(games)@,
            ((r is Broadcast) <==> (old(games)@.contains_key(game_id@) && seated(
                old(games)@[game_id@]@,
                mover@,
            ) && !(move_decision(
                old(games)@[game_id@]@,
                old(games)@[game_id@]@.player_white == mover@,
                san@,
            ) is Rejected))),
            r matches StepReply::Broadcast { message, white, black, removed } ==> {
                let g0 = old(games)@[game_id@]@;
                let mw = g0.player_white == mover@;
                let d = move_decision(g0, mw, san@);
                &&& message@ == step_message_spec(g0, mw, san@)
                &&& white@ == g0.player_white
                &&& opt_view(black) == g0.player_black
                &&& removed == is_terminal(d)
                &&& (is_terminal(d) ==> final(games)@ == old(games)@.remove(game_id@))
                &&& (!is_terminal(d) ==> final(games)@.dom() == old(games)@.dom()
                    && final(games)@[game_id@]@ == game_after(g0, mw, san@) && forall|k: Seq<char>|
                    #[trigger] old(games)@.contains_key(k) && k != game_id@ ==> final(games)@[k]
                        == old(games)@[k])
            },
    {
        let idx = match games.index_of(game_id) {
            Some(i) => i,
            None => {
                return StepReply::Ignored;
            },
        };
        proof {
            lemma_table_map_at(games.entries@, idx as int);
        }
        let (gid, mut g) = games.remove_at(idx);
        if !g.is_member(mover) {
            games.insert(gid.as_str(), g);
            proof {
                assert(games@ =~= old(games)@);
            }
            return StepReply::Ignored;
        }
        let mover_white = g.is_white_player(mover);
        let effect = g.apply_move(mover_white, san);
        match effect {
            MoveEffect::Rejected(err) => {
                games.insert(gid.as_str(), g);
                proof {
                    assert(games@ =~= old(games)@);
                }
                StepReply::ErrorToMover { message: protocol::error_message(&err) }
            },
            _ => {
                let message = match effect {
                    MoveEffect::Update => protocol::update_message(g.fen.as_str()),
                    MoveEffect::Decisive { winner_white } => {
                        let name = if winner_white {
                            g.player_white.clone()
                        } else {
                            match g.player_black {
                                Some(ref b) => b.clone(),
                                None => String::new(),
                            }
                        };
                        protocol::win_message(name.as_str())
                    },
                    _ => protocol::draw_message(),
                };
                let white = g.player_white.clone();
                let black = match g.player_black {
                    Some(ref b) => Some(b.clone()),
                    None => None,
                };
                let terminal = match effect {
                    MoveEffect::Update => false,
                    _ => true,
                };
                if !terminal {
                    games.insert(gid.as_str(), g);
                    proof {
                        assert(games@.dom() =~= old(games)@.dom());
                    }
                }
                StepReply::Broadcast { message, white, black, removed: terminal }
            },
        }
    }

    /// Cleanup when a connection ends: the session under the id, if it still
    /// exists, is removed unconditionally, and the seat opposite the leaver —
    /// if ever filled — is owed the forced-win notification.
    pub fn disconnect(games: &mut Table<Game>, game_id: &str, leaver: &str) -> (r: DisconnectReply)
        requires
            dir_inv(*old(games)),
        ensures
            dir_inv(*final(games)),
            r.removed == old(games)@.contains_key(game_id@),
            !r.removed ==> final(games)@ == old(games)@ && r.opponent is None,
            r.removed ==> final(games)@ == old(games)@.remove(game_id@) && opt_view(r.opponent)
                == (if old(games)@[game_id@]@.player_white == leaver@ {
                old(games)@[game_id@]@.player_black
            } else {
                Some(old(games)@[game_id@]@.player_white)
            }),
    {
        let idx = match games.index_of(game_id) {
            Some(i) => i,
            None => {
                return DisconnectReply { removed: false, opponent: None };
            },
        };
        proof {
            lemma_table_map_at(games.entries@, idx as int);
        }
        let (gid, g) = games.remove_at(idx);
        let leaver_white = g.is_white_player(leaver);
        let opponent = if leaver_white {
            g.player_black
        } else {
            Some(g.player_white)
        };
        DisconnectReply { removed: true, opponent }
    }
}

} // verus!

//! Protocol dispatch: what one connection does with each decoded inbound
//! message, and how a disconnection forfeits the session it was bound to.
//! The surrounding transport loop only decodes messages, hands them here,
//! sends the returned replies and drives the returned subscription.

use vstd::prelude::*;
use vstd::string::StringExecFns;

use crate::game::{
    submit_transition, winner_spec, Game, GameError, GameMessage, GameStatus, RoundResult,
};
use crate::hub::{hub_publish, hub_subscribe};
use crate::lexicon::Lexicon;
use crate::registry::AppState;

verus! {

/// What one connection remembers: the session it is bound to and the
/// player it acts as, each set at most once by a create or join.
pub struct ConnState {
    pub game_id: Option<String>,
    pub player_id: Option<String>,
}

impl ConnState {
    /// A connection bound to nothing.
    pub fn new() -> (c: ConnState)
        ensures
            c.game_id is None,
            c.player_id is None,
    {
        ConnState { game_id: None, player_id: None }
    }
}

/// What the transport loop must do after one dispatched message: send
/// each reply to this connection only, and, when a subscription is
/// handed back, relay every event it yields into this connection's
/// outbound queue.
pub struct Dispatch {
    pub replies: Vec<GameMessage>,
    pub subscription: Option<tokio::sync::broadcast::Receiver<GameMessage>>,
}

/// What an accepted submission publishes, in publish order: the round
/// result first, then either the final game end naming the computed
/// winner or the advanced state's snapshot.
pub open spec fn submit_events(post: Game, res: RoundResult, events: Seq<GameMessage>) -> bool {
    &&& events.len() == 2
    &&& events[0] == (GameMessage::RoundResult { result: res })
    &&& if post.state.status == GameStatus::Finished {
        &&& events[1] matches GameMessage::GameEnd { winner, final_state }
            && final_state == post.state
            && (winner is Some <==> winner_spec(post) is Some)
            && (winner matches Some(ws) ==> winner_spec(post) == Some(ws@))
    } else {
        events[1] == (GameMessage::GameState { state: post.state })
    }
}

/// Applies one submission under the registry's entry lock: the verified
/// state mutation, then the publications the outcome calls for. The
/// messages this call publishes are also returned, in publish order; a
/// refused submission publishes nothing.
pub fn apply_submission(game: &mut Game, lexicon: &Lexicon, player: &String, word: String) -> (r:
    (Result<Option<RoundResult>, GameError>, Vec<GameMessage>))
    requires
        lexicon.wf(),
        old(game).wf(),
    ensures
        final(game).wf(),
        submit_transition(*old(game), *final(game), lexicon@, player@, word@, r.0),
        r.0 matches Ok(Some(res)) ==> submit_events(*final(game), res, r.1@),
        r.0 is Err ==> r.1@.len() == 0,
{
    let outcome = game.submit_word(lexicon, player, word);
    let mut events: Vec<GameMessage> = Vec::new();
    match &outcome {
        Ok(Some(result)) => {
            let round_msg = GameMessage::RoundResult { result: result.snapshot() };
            hub_publish(&game.tx, round_msg.clone());
            events.push(round_msg);
            if game.state.status == GameStatus::Finished {
                let winner = game.get_winner();
                let end_msg = GameMessage::GameEnd { winner, final_state: game.state.snapshot() };
                hub_publish(&game.tx, end_msg.clone());
                events.push(end_msg);
            } else {
                let snapshot_msg = game.broadcast_state();
                events.push(snapshot_msg);
            }
        },
        _ => {},
    }
    (outcome, events)
}

/// The winner a forfeiture declares: always the participant who did not
/// disconnect, whatever the rope says; nobody when no opponent exists.
pub open spec fn forfeit_winner(g: Game, disconnected: Seq<char>) -> Option<Seq<char>> {
    if disconnected == g.creator@ {
        match g.joiner {
            Some(j) => Some(j@),
            None => None,
        }
    } else {
        Some(g.creator@)
    }
}

/// How a forfeiture relates the session before to the session after, and
/// which events it publishes: with an opponent to notify, the game end
/// with the forfeit winner followed by an error notice; with none, no
/// event at all.
pub open spec fn forfeit_transition(
    pre: Game,
    post: Game,
    disconnected: Seq<char>,
    events: Seq<GameMessage>,
) -> bool {
    &&& post.state.status == GameStatus::Finished
    &&& post.id == pre.id
    &&& post.max_rounds == pre.max_rounds
    &&& post.creator == pre.creator
    &&& post.joiner == pre.joiner
    &&& post.tx == pre.tx
    &&& post.state.game_id == pre.state.game_id
    &&& post.state.creator == pre.state.creator
    &&& post.state.joiner == pre.state.joiner
    &&& post.state.current_round == pre.state.current_round
    &&& post.state.rope_position == pre.state.rope_position
    &&& post.state.hint_letters == pre.state.hint_letters
    &&& post.state.round_start_time == pre.state.round_start_time
    &&& post.state.creator_score == pre.state.creator_score
    &&& post.state.joiner_score == pre.state.joiner_score
    &&& match forfeit_winner(pre, disconnected) {
        Some(w) => {
            &&& events.len() == 2
            &&& events[0] matches GameMessage::GameEnd { winner, final_state }
                && winner matches Some(ws) && ws@ == w && final_state == post.state
            &&& events[1] matches GameMessage::Error { message } && message@ == disconnected
                + " disconnected. You win by default!"@
        },
        None => events.len() == 0,
    }
}

/// Forces the session into Finished on behalf of a disconnecting player
/// and publishes the forfeiture to the hub, as `forfeit_transition`
/// states. The disconnecting player always loses, whatever the rope says.
pub fn finish_on_disconnect(game: &mut Game, disconnected: &String) -> (events: Vec<GameMessage>)
    ensures
        forfeit_transition(*old(game), *final(game), disconnected@, events@),
{
    let winner: Option<String> = if *disconnected == game.creator {
        match &game.joiner {
            Some(j) => Some(j.clone()),
            None => None,
        }
    } else {
        Some(game.creator.clone())
    };
    game.state.status = GameStatus::Finished;
    let mut events: Vec<GameMessage> = Vec::new();
    match winner {
        Some(w) => {
            let end = GameMessage::GameEnd {
                winner: Some(w),
                final_state: game.state.snapshot(),
            };
            hub_publish(&game.tx, end.clone());
            events.push(end);
            let mut message = disconnected.clone();
            message.append(" disconnected. You win by default!");
            let notice = GameMessage::Error { message };
            hub_publish(&game.tx, notice.clone());
            events.push(notice);
        },
        None => {},
    }
    events
}

/// The identifier a disconnection is attributed to: the bound player, or
/// a placeholder when the connection never bound one.
pub open spec fn disconnected_id(player_id: Option<String>) -> Seq<char> {
    match player_id {
        Some(p) => p@,
        None => "Unknown"@,
    }
}

/// Tears down the binding a closing connection leaves behind: the bound
/// session, if any, is removed from the registry and forfeited by the
/// disconnecting player. Returns the events that were published: nothing
/// when the connection was bound to no session or the session was gone,
/// and otherwise exactly what a forfeiture of some well-formed session
/// by this connection's player publishes.
pub fn handle_disconnect(state: &AppState, conn: &ConnState) -> (events: Vec<GameMessage>)
    ensures
        conn.game_id is None ==> events@.len() == 0,
        events@.len() > 0 ==> exists|pre: Game, post: Game|
            pre.wf() && #[trigger] forfeit_transition(
                pre,
                post,
                disconnected_id(conn.player_id),
                events@,
            ),
{
    match &conn.game_id {
        Some(game_id) => match state.remove_game(game_id) {
            Some(mut game) => {
                let ghost pre = game;
                let disconnected: String = match &conn.player_id {
                    Some(p) => p.clone(),
                    None => "Unknown".to_owned(),
                };
                let events = finish_on_disconnect(&mut game, &disconnected);
                proof {
                    assert(disconnected@ == disconnected_id(conn.player_id));
                    assert(forfeit_transition(
                        pre,
                        game,
                        disconnected_id(conn.player_id),
                        events@,
                    ));
                }
                events
            },
            None => Vec::new(),
        },
        None => Vec::new(),
    }
}

/// Turns one decoded inbound message into registry and session
/// operations. A create or join binds the connection and hands back a
/// hub subscription; a submission runs against the bound session; a
/// rule violation is answered to this connection only; anything else a
/// client sends is ignored.
pub fn handle_message(state: &AppState, lexicon: &Lexicon, conn: &mut ConnState, msg: GameMessage) -> (d:
    Dispatch)
    requires
        lexicon.wf(),
    ensures
        (msg matches GameMessage::CreateGame { player_id, rounds } ==> {
            ||| {
                &&& final(conn).player_id matches Some(p) && p@ == player_id@
                &&& final(conn).game_id matches Some(g) && g@.len() == 8
                &&& d.replies@.len() == 1
                &&& d.replies@[0] matches GameMessage::GameCreated {
                    game_id: rg,
                    player_id: rp,
                } && rp@ == player_id@ && (final(conn).game_id matches Some(cg) && rg == cg)
                &&& d.subscription is Some
                &&& rounds >= 1
            }
            ||| {
                &&& *final(conn) == *old(conn)
                &&& d.replies@.len() == 1
                &&& d.replies@[0] matches GameMessage::Error { message }
                &&& d.subscription is None
            }
        }),
        (msg matches GameMessage::CreateGame { player_id, rounds } ==> (rounds == 0 ==> (
        d.replies@[0] matches GameMessage::Error { message } && message@
            == GameError::InvalidRounds.spec_message()))),
        (msg matches GameMessage::JoinGame { game_id, player_id } ==> {
            ||| {
                &&& final(conn).game_id matches Some(g) && g == game_id
                &&& final(conn).player_id matches Some(p) && p == player_id
                &&& d.replies@.len() == 1
                &&& d.replies@[0] matches GameMessage::JoinGame { game_id: rg, player_id: rp }
                    && rg == game_id && rp == player_id
                &&& d.subscription is Some
            }
            ||| {
                &&& *final(conn) == *old(conn)
                &&& d.replies@.len() == 1
                &&& d.replies@[0] matches GameMessage::Error { message } && (message@
                    == GameError::NotFound.spec_message() || message@
                    == GameError::GameFull.spec_message() || message@
                    == GameError::SelfJoin.spec_message())
                &&& d.subscription is None
            }
        }),
        (msg matches GameMessage::SubmitWord { word } ==> {
            &&& *final(conn) == *old(conn)
            &&& d.subscription is None
            &&& d.replies@.len() <= 1
            &&& d.replies@.len() == 1 ==> (d.replies@[0] matches GameMessage::Error { message })
            &&& (old(conn).game_id is None || old(conn).player_id is None) ==> d.replies@.len()
                == 0
        }),
        (msg matches GameMessage::SubmitWord { word } ==> (old(conn).player_id matches Some(p)
            ==> (old(conn).game_id is Some ==> {
            ||| (d.replies@.len() == 0 && exists|pre: Game, post: Game, res: RoundResult|
                pre.wf() && #[trigger] submit_transition(
                    pre,
                    post,
                    lexicon@,
                    p@,
                    word@,
                    Ok(Some(res)),
                ))
            ||| (d.replies@.len() == 1 && (d.replies@[0] matches GameMessage::Error { message }
                && exists|e: GameError|
                    #[trigger] e.spec_message() == message@ && (e == GameError::NotFound
                        || exists|pre: Game, post: Game|
                        pre.wf() && #[trigger] submit_transition(
                            pre,
                            post,
                            lexicon@,
                            p@,
                            word@,
                            Err::<Option<RoundResult>, GameError>(e),
                        ))))
        }))),
        (!(msg matches GameMessage::CreateGame { .. }) && !(msg
            matches GameMessage::JoinGame { .. }) && !(msg matches GameMessage::SubmitWord {
            ..
        }) ==> {
            &&& *final(conn) == *old(conn)
            &&& d.replies@.len() == 0
            &&& d.subscription is None
        }),
{
    match msg {
        GameMessage::CreateGame { player_id, rounds } => {
            match Game::new(lexicon, player_id.clone(), rounds) {
                Ok(game) => {
                    let game_id = game.id.clone();
                    let rx = hub_subscribe(&game.tx);
                    if state.insert_game(game_id.clone(), game) {
                        conn.game_id = Some(game_id.clone());
                        conn.player_id = Some(player_id.clone());
                        let mut replies: Vec<GameMessage> = Vec::new();
                        replies.push(GameMessage::GameCreated { game_id, player_id });
                        Dispatch { replies, subscription: Some(rx) }
                    } else {
                        let mut replies: Vec<GameMessage> = Vec::new();
                        replies.push(
                            GameMessage::Error { message: GameError::DuplicateId.message() },
                        );
                        Dispatch { replies, subscription: None }
                    }
                },
                Err(e) => {
                    let mut replies: Vec<GameMessage> = Vec::new();
                    replies.push(GameMessage::Error { message: e.message() });
                    Dispatch { replies, subscription: None }
                },
            }
        },
        GameMessage::JoinGame { game_id, player_id } => {
            match state.join_game(&game_id, player_id.clone()) {
                Ok(rx) => {
                    conn.game_id = Some(game_id.clone());
                    conn.player_id = Some(player_id.clone());
                    let mut replies: Vec<GameMessage> = Vec::new();
                    replies.push(GameMessage::JoinGame { game_id, player_id });
                    Dispatch { replies, subscription: Some(rx) }
                },
                Err(e) => {
                    let mut replies: Vec<GameMessage> = Vec::new();
                    replies.push(GameMessage::Error { message: e.message() });
                    Dispatch { replies, subscription: None }
                },
            }
        },
        GameMessage::SubmitWord { word } => {
            let bound = match (&conn.game_id, &conn.player_id) {
                (Some(game_id), Some(player_id)) => Some((game_id, player_id)),
                _ => None,
            };
            match bound {
                Some((game_id, player_id)) => {
                    let sr = state.submit_to_game(game_id, lexicon, player_id, word);
                    match sr {
                        Ok(v) => {
                            proof {
                                let (pre, post) = choose|pre: Game, post: Game|
                                    pre.wf() && post.wf() && #[trigger] submit_transition(
                                        pre,
                                        post,
                                        lexicon@,
                                        player_id@,
                                        word@,
                                        sr,
                                    );
                                assert(v is Some);
                                let res = v->0;
                                assert(submit_transition(
                                    pre,
                                    post,
                                    lexicon@,
                                    player_id@,
                                    word@,
                                    Ok(Some(res)),
                                ));
                            }
                            Dispatch { replies: Vec::new(), subscription: None }
                        },
                        Err(e) => {
                            proof {
                                if e != GameError::NotFound {
                                    let (pre, post) = choose|pre: Game, post: Game|
                                        pre.wf() && post.wf() && #[trigger] submit_transition(
                                            pre,
                                            post,
                                            lexicon@,
                                            player_id@,
                                            word@,
                                            sr,
                                        );
                                    assert(submit_transition(
                                        pre,
                                        post,
                                        lexicon@,
                                        player_id@,
                                        word@,
                                        Err::<Option<RoundResult>, GameError>(e),
                                    ));
                                }
                            }
                            let mut replies: Vec<GameMessage> = Vec::new();
                            replies.push(GameMessage::Error { message: e.message() });
                            Dispatch { replies, subscription: None }
                        },
                    }
                },
                None => Dispatch { replies: Vec::new(), subscription: None },
            }
        },
        _ => Dispatch { replies: Vec::new(), subscription: None },
    }
}

} // verus!

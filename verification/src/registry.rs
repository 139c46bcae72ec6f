//! The process-wide registry of live sessions: a concurrent map from
//! session id to session. Independent sessions mutate in parallel; all
//! operations on one id serialize on that entry's lock, so two concurrent
//! joins or submissions against the same session never interleave.
//!
//! The map is shared behind `Arc` and mutated through `&self`, so its
//! contents are not a function of any one handle's value: other
//! connections may change it between two calls. The contracts therefore
//! state what holds of every outcome: each mutating accessor promises
//! that its result is an outcome of the corresponding verified transition
//! on some well-formed session, which is exactly what the verified
//! operation it applies under the entry lock guarantees. The one standing
//! trust, stated in those clauses, is that the registry holds only
//! well-formed sessions: `insert_game` demands well-formedness on entry
//! and every verified mutation preserves it.

use vstd::prelude::*;

use crate::dispatch::apply_submission;
use crate::game::{
    join_transition, submit_transition, Game, GameError, GameMessage, GameState, RoundResult,
};
use crate::hub::hub_subscribe;
use crate::lexicon::Lexicon;
use std::sync::Arc;

verus! {

#[verifier::external_type_specification]
#[verifier::external_body]
#[verifier::reject_recursive_types(K)]
#[verifier::reject_recursive_types(V)]
#[verifier::reject_recursive_types(S)]
pub struct ExDashMap<K, V, S>(dashmap::DashMap<K, V, S>);

/// The shared state every connection handler works against: the session
/// registry and the lobby's own broadcast hub.
#[derive(Clone)]
pub struct AppState {
    pub games: Arc<dashmap::DashMap<String, Game>>,
    pub lobby_tx: tokio::sync::broadcast::Sender<GameMessage>,
}

/// Relies on dashmap::DashMap::new: an empty concurrent map.
#[verifier::external_body]
fn registry_new() -> Arc<dashmap::DashMap<String, Game>> {
    Arc::new(dashmap::DashMap::new())
}

impl AppState {
    /// A fresh state with an empty registry and the given lobby hub.
    pub fn new(lobby_tx: tokio::sync::broadcast::Sender<GameMessage>) -> (r: AppState)
        ensures
            r.lobby_tx == lobby_tx,
    {
        AppState { games: registry_new(), lobby_tx }
    }

    /// Relies on dashmap::DashMap::entry: the closed-over insert runs only
    /// when the key is vacant, so an existing session is never replaced.
    /// The caller hands over a well-formed session, which keeps the
    /// registry's contents well-formed.
    #[verifier::external_body]
    pub fn insert_game(&self, id: String, game: Game) -> (inserted: bool)
        requires
            game.wf(),
    {
        match self.games.entry(id) {
            dashmap::Entry::Occupied(_) => false,
            dashmap::Entry::Vacant(v) => {
                v.insert(game);
                true
            },
        }
    }

    /// Relies on dashmap::DashMap::get_mut: exclusive locked access to the
    /// one entry for `id` while the verified `Game::add_joiner` mutates it.
    /// The contract relays `add_joiner`'s: the registry holds only
    /// well-formed sessions (demanded at `insert_game`, preserved by every
    /// verified mutation), so any outcome but NotFound is an outcome of
    /// `join_transition` on some well-formed session. On success the
    /// returned receiver subscribes to the session's hub.
    #[verifier::external_body]
    pub fn join_game(&self, id: &String, joiner: String) -> (r: Result<
        tokio::sync::broadcast::Receiver<GameMessage>,
        GameError,
    >)
        ensures
            r matches Err(e) ==> (e == GameError::NotFound || e == GameError::GameFull || e
                == GameError::SelfJoin),
            r is Ok ==> exists|pre: Game, post: Game, events: Vec<GameMessage>|
                pre.wf() && post.wf() && #[trigger] join_transition(
                    pre,
                    post,
                    joiner@,
                    Ok(events),
                ),
    {
        match self.games.get_mut(id) {
            Some(mut game) => match game.add_joiner(joiner) {
                Ok(_) => Ok(hub_subscribe(&game.tx)),
                Err(e) => Err(e),
            },
            None => Err(GameError::NotFound),
        }
    }

    /// Relies on dashmap::DashMap::get_mut: exclusive locked access to the
    /// one entry for `id` while the verified `apply_submission` validates
    /// the word, scores the round and publishes the outcome. The contract
    /// relays `apply_submission`'s: the registry holds only well-formed
    /// sessions, so any outcome but NotFound is an outcome of
    /// `submit_transition` on some well-formed session.
    #[verifier::external_body]
    pub fn submit_to_game(
        &self,
        id: &String,
        lexicon: &Lexicon,
        player: &String,
        word: String,
    ) -> (r: Result<Option<RoundResult>, GameError>)
        requires
            lexicon.wf(),
        ensures
            r matches Ok(v) ==> exists|pre: Game, post: Game|
                pre.wf() && post.wf() && #[trigger] submit_transition(
                    pre,
                    post,
                    lexicon@,
                    player@,
                    word@,
                    Ok(v),
                ),
            r matches Err(e) ==> (e == GameError::NotFound || exists|pre: Game, post: Game|
                pre.wf() && post.wf() && #[trigger] submit_transition(
                    pre,
                    post,
                    lexicon@,
                    player@,
                    word@,
                    Err::<Option<RoundResult>, GameError>(e),
                )),
    {
        match self.games.get_mut(id) {
            Some(mut game) => apply_submission(&mut game, lexicon, player, word).0,
            None => Err(GameError::NotFound),
        }
    }

    /// Relies on dashmap::DashMap::remove: atomically detaches the session
    /// and hands back sole ownership for teardown. The contract states the
    /// registry's one standing trust: it holds only well-formed sessions,
    /// demanded at `insert_game` and preserved by every verified mutation.
    #[verifier::external_body]
    pub fn remove_game(&self, id: &String) -> (r: Option<Game>)
        ensures
            r matches Some(game) ==> game.wf(),
    {
        self.games.remove(id).map(|(_, game)| game)
    }

    /// Relies on dashmap::DashMap::get: a locked read of the one entry for
    /// `id`, copied out with the verified `GameState::snapshot`; what comes
    /// back is the state of some well-formed session.
    #[verifier::external_body]
    pub fn game_state(&self, id: &String) -> (r: Option<GameState>)
        ensures
            r matches Some(s) ==> exists|game: Game| #[trigger] game.wf() && game.state == s,
    {
        self.games.get(id).map(|game| game.state.snapshot())
    }
}

} // verus!

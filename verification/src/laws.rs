//! The laws the session engine obeys, each proved from the transition
//! predicates that the session operations' contracts are stated over.

use vstd::prelude::*;

use crate::dispatch::{forfeit_transition, forfeit_winner};
use crate::game::{
    is_participant, join_transition, submit_transition, winner_spec, Game, GameError, GameMessage,
    GameStatus, RoundResult,
};
use crate::lexicon::lower_of;
use crate::text::contains_seq;

verus! {

/// A join under the creator's own identifier is refused with SelfJoin,
/// and a refused join never mutates the session.
pub proof fn law_self_join(pre: Game, post: Game, joiner: Seq<char>, r: Result<
    Vec<GameMessage>,
    GameError,
>)
    requires
        pre.state.joiner is None,
        joiner == pre.state.creator@,
        join_transition(pre, post, joiner, r),
    ensures
        r == Err::<Vec<GameMessage>, GameError>(GameError::SelfJoin),
        post == pre,
{
}

/// Any refused join leaves the session exactly as it was.
pub proof fn law_join_error_mutates_nothing(
    pre: Game,
    post: Game,
    joiner: Seq<char>,
    r: Result<Vec<GameMessage>, GameError>,
)
    requires
        join_transition(pre, post, joiner, r),
        r is Err,
    ensures
        post == pre,
{
}

/// A join against an already-full session is refused with GameFull.
pub proof fn law_join_full(pre: Game, post: Game, joiner: Seq<char>, r: Result<
    Vec<GameMessage>,
    GameError,
>)
    requires
        pre.state.joiner is Some,
        join_transition(pre, post, joiner, r),
    ensures
        r == Err::<Vec<GameMessage>, GameError>(GameError::GameFull),
        post == pre,
{
}

/// An accepted join announces the joiner first and the new state
/// snapshot second, in that order, and nothing else; a refused join
/// publishes nothing, since every event a join publishes is returned.
pub proof fn law_join_announces_then_snapshots(
    pre: Game,
    post: Game,
    joiner: Seq<char>,
    r: Result<Vec<GameMessage>, GameError>,
)
    requires
        join_transition(pre, post, joiner, r),
    ensures
        r matches Ok(events) ==> ({
            &&& events@.len() == 2
            &&& events@[0] matches GameMessage::PlayerJoined { player_id } && player_id@ == joiner
            &&& events@[1] == (GameMessage::GameState { state: post.state })
        }),
        r is Err ==> post == pre,
{
}

/// An accepted submission by the creator moves the rope up by exactly one
/// and raises the creator's score by exactly one; one by the joiner moves
/// the rope down by one and raises the joiner's score by one.
pub proof fn law_accepted_move(
    pre: Game,
    post: Game,
    lex: Seq<Seq<char>>,
    player: Seq<char>,
    word: Seq<char>,
    r: Result<Option<RoundResult>, GameError>,
)
    requires
        submit_transition(pre, post, lex, player, word, r),
        r is Ok,
    ensures
        player == pre.state.creator@ ==> {
            &&& post.state.rope_position == pre.state.rope_position + 1
            &&& post.state.creator_score == pre.state.creator_score + 1
            &&& post.state.joiner_score == pre.state.joiner_score
        },
        player != pre.state.creator@ ==> {
            &&& post.state.rope_position == pre.state.rope_position - 1
            &&& post.state.joiner_score == pre.state.joiner_score + 1
            &&& post.state.creator_score == pre.state.creator_score
        },
{
}

/// A submission whose lower-cased word does not carry the round's hint is
/// refused with MissingHint, whether or not the word is in the
/// dictionary.
pub proof fn law_missing_hint(
    pre: Game,
    post: Game,
    lex: Seq<Seq<char>>,
    player: Seq<char>,
    word: Seq<char>,
    r: Result<Option<RoundResult>, GameError>,
)
    requires
        pre.state.status == GameStatus::InProgress,
        is_participant(pre, player),
        !contains_seq(lower_of(word), lower_of(pre.state.hint_letters@)),
        submit_transition(pre, post, lex, player, word, r),
    ensures
        r == Err::<Option<RoundResult>, GameError>(GameError::MissingHint),
        post == pre,
{
}

/// The final round's accepted submission finishes the game, and the
/// winner is then determined by the sign of the rope position alone:
/// positive for the creator, negative for the joiner, zero a draw.
pub proof fn law_final_round_finishes(
    pre: Game,
    post: Game,
    lex: Seq<Seq<char>>,
    player: Seq<char>,
    word: Seq<char>,
    r: Result<Option<RoundResult>, GameError>,
)
    requires
        submit_transition(pre, post, lex, player, word, r),
        r is Ok,
        pre.state.current_round == pre.max_rounds,
    ensures
        post.state.status == GameStatus::Finished,
        post.state.rope_position > 0 ==> winner_spec(post) == Some(post.state.creator@),
        post.state.joiner matches Some(j) ==> (post.state.rope_position < 0 ==> winner_spec(post)
            == Some(j@)),
        post.state.rope_position == 0 ==> winner_spec(post) is None,
{
}

/// A forfeiture always finishes the session and declares the participant
/// who did not disconnect the winner, whatever the rope position says —
/// even one that favours the disconnecting player.
pub proof fn law_forfeit_other_side_wins(
    pre: Game,
    post: Game,
    disconnected: Seq<char>,
    events: Seq<GameMessage>,
)
    requires
        forfeit_transition(pre, post, disconnected, events),
        pre.state.joiner is Some,
        pre.joiner == pre.state.joiner,
    ensures
        post.state.status == GameStatus::Finished,
        disconnected == pre.creator@ ==> forfeit_winner(pre, disconnected) == Some(
            pre.state.joiner->0@,
        ),
        disconnected != pre.creator@ ==> forfeit_winner(pre, disconnected) == Some(pre.creator@),
        events.len() == 2,
        events[0] matches GameMessage::GameEnd { winner, final_state } && winner matches Some(ws)
            && Some(ws@) == forfeit_winner(pre, disconnected),
{
}

/// A disconnection with no opponent to notify publishes nothing: the
/// session is simply finished and discarded.
pub proof fn law_forfeit_without_opponent(
    pre: Game,
    post: Game,
    disconnected: Seq<char>,
    events: Seq<GameMessage>,
)
    requires
        forfeit_transition(pre, post, disconnected, events),
        pre.joiner is None,
        pre.joiner == pre.state.joiner,
        disconnected == pre.creator@,
    ensures
        post.state.status == GameStatus::Finished,
        events.len() == 0,
{
}

/// Two submissions serialized against the same session never both score
/// the same round: once one is accepted, the next either runs against the
/// advanced round or is refused because the game has finished.
pub proof fn law_no_double_scoring(
    g0: Game,
    g1: Game,
    g2: Game,
    lex: Seq<Seq<char>>,
    p1: Seq<char>,
    w1: Seq<char>,
    p2: Seq<char>,
    w2: Seq<char>,
    r1: Result<Option<RoundResult>, GameError>,
    r2: Result<Option<RoundResult>, GameError>,
)
    requires
        submit_transition(g0, g1, lex, p1, w1, r1),
        r1 matches Ok(Some(res1)),
        submit_transition(g1, g2, lex, p2, w2, r2),
    ensures
        g1.state.status == GameStatus::Finished ==> r2 == Err::<
            Option<RoundResult>,
            GameError,
        >(GameError::NotInProgress),
        r2 matches Ok(Some(res2)) ==> ({
            &&& r1 matches Ok(Some(res1))
            &&& res2.round == res1.round + 1
        }),
{
}

} // verus!

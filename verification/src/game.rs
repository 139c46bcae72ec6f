//! One game session: the authoritative state machine for a two-player
//! tug-of-war over words. Every accepted submission pulls the rope one
//! step toward the submitting side; after the final round the sign of the
//! rope position decides the winner.

use vstd::prelude::*;

use crate::clock::current_timestamp;
use crate::hub::{hub_channel, hub_publish, HUB_CAPACITY};
use crate::lexicon::{generate_hint_letters, lower_of, to_lower, valid_hint, Lexicon};
use crate::text::{contains_seq, contains_substring};

verus! {

#[derive(Clone, Copy, Debug, PartialEq, Eq, Structural)]
pub enum GameStatus {
    /// Only the creator is present.
    WaitingForPlayer,
    /// Both players are present and rounds are being played.
    InProgress,
    /// Terminal: no further moves are accepted.
    Finished,
}

/// Why a session operation was refused. Rule violations are surfaced to
/// the offending connection only and never mutate the session.
#[derive(Clone, Copy, Debug, PartialEq, Eq, Structural)]
pub enum GameError {
    InvalidRounds,
    GameFull,
    SelfJoin,
    NotInProgress,
    UnknownPlayer,
    InvalidWord,
    MissingHint,
    NotFound,
    DuplicateId,
}

impl GameError {
    /// The text of each error as a character sequence.
    pub open spec fn spec_message(self) -> Seq<char> {
        match self {
            GameError::InvalidRounds => "Rounds must be at least 1"@,
            GameError::GameFull => "Game is full"@,
            GameError::SelfJoin => "Cannot be joined by the creator!"@,
            GameError::NotInProgress => "Game not in progress"@,
            GameError::UnknownPlayer => "Player not in this game"@,
            GameError::InvalidWord => "Word not in dictionary"@,
            GameError::MissingHint => "Word must contain all hint letters"@,
            GameError::NotFound => "Game not found"@,
            GameError::DuplicateId => "Game id already exists"@,
        }
    }

    /// The text surfaced to the offending connection.
    pub fn message(&self) -> (m: String)
        ensures
            m@ == self.spec_message(),
    {
        match self {
            GameError::InvalidRounds => "Rounds must be at least 1".to_owned(),
            GameError::GameFull => "Game is full".to_owned(),
            GameError::SelfJoin => "Cannot be joined by the creator!".to_owned(),
            GameError::NotInProgress => "Game not in progress".to_owned(),
            GameError::UnknownPlayer => "Player not in this game".to_owned(),
            GameError::InvalidWord => "Word not in dictionary".to_owned(),
            GameError::MissingHint => "Word must contain all hint letters".to_owned(),
            GameError::NotFound => "Game not found".to_owned(),
            GameError::DuplicateId => "Game id already exists".to_owned(),
        }
    }
}

/// The observable state of one session.
#[derive(Clone, Debug, PartialEq)]
pub struct GameState {
    pub game_id: String,
    pub creator: String,
    pub joiner: Option<String>,
    pub current_round: u8,
    /// Signed score differential: positive favours the creator. No code
    /// path clamps it to a fixed band; it is bounded by the number of
    /// rounds, which is why it is wider than the round counter.
    pub rope_position: i32,
    pub hint_letters: String,
    pub round_start_time: u64,
    pub creator_score: u8,
    pub joiner_score: u8,
    pub status: GameStatus,
}

impl GameState {
    /// An exact copy. Unlike a derived clone, its contract states that
    /// the copy equals the original.
    pub fn snapshot(&self) -> (s: GameState)
        ensures
            s == *self,
    {
        GameState {
            game_id: self.game_id.clone(),
            creator: self.creator.clone(),
            joiner: match &self.joiner {
                Some(j) => Some(j.clone()),
                None => None,
            },
            current_round: self.current_round,
            rope_position: self.rope_position,
            hint_letters: self.hint_letters.clone(),
            round_start_time: self.round_start_time,
            creator_score: self.creator_score,
            joiner_score: self.joiner_score,
            status: self.status,
        }
    }
}

/// The outcome of one accepted submission.
#[derive(Clone, Debug, PartialEq)]
pub struct RoundResult {
    pub round: u8,
    pub winner: String,
    pub word: String,
    pub new_rope_position: i32,
}

impl RoundResult {
    /// An exact copy. Unlike a derived clone, its contract states that
    /// the copy equals the original.
    pub fn snapshot(&self) -> (s: RoundResult)
        ensures
            s == *self,
    {
        RoundResult {
            round: self.round,
            winner: self.winner.clone(),
            word: self.word.clone(),
            new_rope_position: self.new_rope_position,
        }
    }
}

/// An open-game listing for the lobby.
#[derive(Clone, Debug, PartialEq)]
pub struct LobbyInfo {
    pub game_id: String,
    pub creator: String,
    pub round: u8,
}

/// Every application message, inbound and outbound.
#[derive(Clone, Debug, PartialEq)]
pub enum GameMessage {
    Lobby { games: Vec<LobbyInfo> },
    JoinGame { game_id: String, player_id: String },
    CreateGame { player_id: String, rounds: u8 },
    SubmitWord { word: String },
    GameCreated { game_id: String, player_id: String },
    PlayerJoined { player_id: String },
    GameState { state: GameState },
    RoundResult { result: RoundResult },
    GameEnd { winner: Option<String>, final_state: GameState },
    GameFinish { player_id: String, score: i32 },
    Error { message: String },
}

/// One live session: the state plus its event hub.
pub struct Game {
    pub id: String,
    pub max_rounds: u8,
    pub creator: String,
    pub joiner: Option<String>,
    pub state: GameState,
    pub tx: tokio::sync::broadcast::Sender<GameMessage>,
}

/// `player` identifies one of the session's two participants.
pub open spec fn is_participant(g: Game, player: Seq<char>) -> bool {
    ||| player == g.state.creator@
    ||| (g.state.joiner matches Some(j) && player == j@)
}

/// What a freshly created session looks like.
pub open spec fn create_post(g: Game, creator: Seq<char>, max_rounds: u8, lex: Seq<Seq<char>>) -> bool {
    &&& g.max_rounds == max_rounds
    &&& g.creator@ == creator
    &&& g.state.creator@ == creator
    &&& g.joiner is None
    &&& g.state.joiner is None
    &&& g.state.current_round == 1
    &&& g.state.rope_position == 0
    &&& g.state.creator_score == 0
    &&& g.state.joiner_score == 0
    &&& g.state.status == GameStatus::WaitingForPlayer
    &&& valid_hint(lex, g.state.hint_letters@)
    &&& g.id == g.state.game_id
    &&& g.id@.len() == 8
}

/// The error a join attempt is refused with, if any.
pub open spec fn join_err(pre: Game, joiner: Seq<char>) -> Option<GameError> {
    if pre.state.joiner is Some {
        Some(GameError::GameFull)
    } else if joiner == pre.state.creator@ {
        Some(GameError::SelfJoin)
    } else {
        None
    }
}

/// How a join call relates the session before to the session after, and
/// which events it publishes: a refused join publishes nothing, an
/// accepted one announces the joiner and then the new state snapshot, in
/// that order. The round start time is reset to the clock, so it is not
/// constrained.
pub open spec fn join_transition(pre: Game, post: Game, joiner: Seq<char>, r: Result<
    Vec<GameMessage>,
    GameError,
>) -> bool {
    match join_err(pre, joiner) {
        Some(e) => r == Err::<Vec<GameMessage>, GameError>(e) && post == pre,
        None => {
            &&& r matches Ok(events)
            &&& events@.len() == 2
            &&& events@[0] matches GameMessage::PlayerJoined { player_id } && player_id@ == joiner
            &&& events@[1] == (GameMessage::GameState { state: post.state })
            &&& post.state.joiner matches Some(j) && j@ == joiner
            &&& post.joiner == post.state.joiner
            &&& post.state.status == GameStatus::InProgress
            &&& post.id == pre.id
            &&& post.max_rounds == pre.max_rounds
            &&& post.creator == pre.creator
            &&& post.tx == pre.tx
            &&& post.state.game_id == pre.state.game_id
            &&& post.state.creator == pre.state.creator
            &&& post.state.current_round == pre.state.current_round
            &&& post.state.rope_position == pre.state.rope_position
            &&& post.state.hint_letters == pre.state.hint_letters
            &&& post.state.creator_score == pre.state.creator_score
            &&& post.state.joiner_score == pre.state.joiner_score
        },
    }
}

/// The error a submission is refused with, if any. A word that lacks the
/// hint is refused with MissingHint regardless of dictionary membership.
pub open spec fn submit_err(pre: Game, lex: Seq<Seq<char>>, player: Seq<char>, word: Seq<char>) -> Option<
    GameError,
> {
    if pre.state.status != GameStatus::InProgress {
        Some(GameError::NotInProgress)
    } else if !is_participant(pre, player) {
        Some(GameError::UnknownPlayer)
    } else if !contains_seq(lower_of(word), lower_of(pre.state.hint_letters@)) {
        Some(GameError::MissingHint)
    } else if !lex.contains(lower_of(word)) {
        Some(GameError::InvalidWord)
    } else {
        None
    }
}

/// What an accepted submission does: one point and one rope step to the
/// submitting side; the final round finishes the game, any earlier round
/// advances with a fresh hint. The new round's start time comes from the
/// clock, so it is not constrained.
pub open spec fn submit_accept_post(
    pre: Game,
    post: Game,
    lex: Seq<Seq<char>>,
    player: Seq<char>,
    word: Seq<char>,
    res: RoundResult,
) -> bool {
    let creator_side = player == pre.state.creator@;
    &&& post.id == pre.id
    &&& post.max_rounds == pre.max_rounds
    &&& post.creator == pre.creator
    &&& post.joiner == pre.joiner
    &&& post.tx == pre.tx
    &&& post.state.game_id == pre.state.game_id
    &&& post.state.creator == pre.state.creator
    &&& post.state.joiner == pre.state.joiner
    &&& post.state.creator_score == pre.state.creator_score + (if creator_side {
        1int
    } else {
        0int
    })
    &&& post.state.joiner_score == pre.state.joiner_score + (if creator_side {
        0int
    } else {
        1int
    })
    &&& post.state.rope_position == pre.state.rope_position + (if creator_side {
        1int
    } else {
        -1int
    })
    &&& res.round == pre.state.current_round
    &&& res.winner@ == player
    &&& res.word@ == word
    &&& res.new_rope_position == post.state.rope_position
    &&& if pre.state.current_round == pre.max_rounds {
        &&& post.state.status == GameStatus::Finished
        &&& post.state.current_round == pre.state.current_round
        &&& post.state.hint_letters == pre.state.hint_letters
        &&& post.state.round_start_time == pre.state.round_start_time
    } else {
        &&& post.state.status == GameStatus::InProgress
        &&& post.state.current_round == pre.state.current_round + 1
        &&& valid_hint(lex, post.state.hint_letters@)
    }
}

/// How a submission relates the session before to the session after,
/// covering acceptance and every refusal.
pub open spec fn submit_transition(
    pre: Game,
    post: Game,
    lex: Seq<Seq<char>>,
    player: Seq<char>,
    word: Seq<char>,
    r: Result<Option<RoundResult>, GameError>,
) -> bool {
    match submit_err(pre, lex, player, word) {
        Some(e) => r == Err::<Option<RoundResult>, GameError>(e) && post == pre,
        None => {
            &&& r matches Ok(Some(res)) && submit_accept_post(pre, post, lex, player, word, res)
        },
    }
}

/// The winner a finished session yields: the creator when the rope is
/// positive, the joiner when it is negative, nobody on a draw.
pub open spec fn winner_spec(g: Game) -> Option<Seq<char>> {
    if g.state.rope_position > 0 {
        Some(g.state.creator@)
    } else if g.state.rope_position < 0 {
        match g.state.joiner {
            Some(j) => Some(j@),
            None => None,
        }
    } else {
        None
    }
}

/// Relies on uuid::Uuid::new_v4 and its hyphenated rendering: 36 ASCII
/// characters.
#[verifier::external_body]
fn fresh_uuid_string() -> (id: String)
    ensures
        id@.len() == 36,
        vstd::string::string_is_ascii(&id),
{
    uuid::Uuid::new_v4().to_string()
}

impl Game {
    /// The session's internal consistency: mirror fields agree, the round
    /// counter stays within the configured rounds, the scores account for
    /// the completed rounds, and the rope equals their difference.
    pub open spec fn wf(&self) -> bool {
        &&& 1 <= self.max_rounds
        &&& 1 <= self.state.current_round <= self.max_rounds
        &&& self.state.status != GameStatus::Finished ==> self.state.creator_score
            + self.state.joiner_score == self.state.current_round - 1
        &&& self.state.creator_score + self.state.joiner_score <= self.state.current_round
        &&& self.state.rope_position == self.state.creator_score - self.state.joiner_score
        &&& (self.state.status == GameStatus::WaitingForPlayer <==> self.state.joiner is None)
        &&& self.joiner == self.state.joiner
        &&& self.creator == self.state.creator
        &&& self.id == self.state.game_id
        &&& (self.state.joiner matches Some(j) ==> j@ != self.state.creator@)
        &&& self.state.status == GameStatus::WaitingForPlayer ==> self.state.current_round == 1
    }

    /// A new session in WaitingForPlayer with a fresh id, a sampled hint
    /// and the rope at the centre. Refused only when `max_rounds` is zero.
    pub fn new(lexicon: &Lexicon, creator: String, max_rounds: u8) -> (r: Result<Game, GameError>)
        requires
            lexicon.wf(),
        ensures
            max_rounds == 0 <==> r == Err::<Game, GameError>(GameError::InvalidRounds),
            max_rounds >= 1 ==> (r matches Ok(g) && g.wf() && create_post(
                g,
                creator@,
                max_rounds,
                lexicon@,
            )),
    {
        if max_rounds == 0 {
            return Err(GameError::InvalidRounds);
        }
        let full_id = fresh_uuid_string();
        let game_id = full_id.as_str().substring_ascii(0, 8).to_owned();
        let hint_letters = generate_hint_letters(lexicon);
        let tx = hub_channel(HUB_CAPACITY);
        let state = GameState {
            game_id: game_id.clone(),
            creator: creator.clone(),
            joiner: None,
            current_round: 1,
            rope_position: 0,
            hint_letters,
            round_start_time: current_timestamp(),
            creator_score: 0,
            joiner_score: 0,
            status: GameStatus::WaitingForPlayer,
        };
        Ok(Game { id: game_id, max_rounds, creator, joiner: None, state, tx })
    }

    /// Seats the second player: refused when the session is already full
    /// or the joiner is the creator; otherwise the session moves to
    /// InProgress and the join is announced on the hub. Everything this
    /// call publishes is also returned, in publish order: the join
    /// announcement, then the state snapshot.
    pub fn add_joiner(&mut self, joiner: String) -> (r: Result<Vec<GameMessage>, GameError>)
        requires
            old(self).wf(),
        ensures
            final(self).wf(),
            join_transition(*old(self), *final(self), joiner@, r),
    {
        if self.state.joiner.is_some() {
            return Err(GameError::GameFull);
        }
        if joiner == self.state.creator {
            return Err(GameError::SelfJoin);
        }
        self.joiner = Some(joiner.clone());
        self.state.joiner = Some(joiner.clone());
        self.state.status = GameStatus::InProgress;
        self.state.round_start_time = current_timestamp();
        let announce = GameMessage::PlayerJoined { player_id: joiner };
        hub_publish(&self.tx, announce.clone());
        let snapshot = self.broadcast_state();
        let mut events: Vec<GameMessage> = Vec::new();
        events.push(announce);
        events.push(snapshot);
        Ok(events)
    }

    /// Applies one submission: validation, scoring and the round advance
    /// happen as one mutation, exactly as `submit_transition` states.
    /// This call itself publishes nothing, on refusal or acceptance: the
    /// publications an accepted submission owes are made and returned by
    /// `dispatch::apply_submission`.
    pub fn submit_word(&mut self, lexicon: &Lexicon, player: &String, word: String) -> (r: Result<
        Option<RoundResult>,
        GameError,
    >)
        requires
            lexicon.wf(),
            old(self).wf(),
        ensures
            final(self).wf(),
            submit_transition(*old(self), *final(self), lexicon@, player@, word@, r),
    {
        if self.state.status != GameStatus::InProgress {
            return Err(GameError::NotInProgress);
        }
        let is_creator = *player == self.state.creator;
        let is_joiner = match &self.state.joiner {
            Some(j) => *player == *j,
            None => false,
        };
        if !is_creator && !is_joiner {
            return Err(GameError::UnknownPlayer);
        }
        let word_lower = to_lower(word.as_str());
        let hint_lower = to_lower(self.state.hint_letters.as_str());
        if !contains_substring(word_lower.as_str(), hint_lower.as_str()) {
            return Err(GameError::MissingHint);
        }
        if !lexicon.contains(&word_lower) {
            return Err(GameError::InvalidWord);
        }
        if is_creator {
            self.state.creator_score = self.state.creator_score + 1;
            self.state.rope_position = self.state.rope_position + 1;
        } else {
            self.state.joiner_score = self.state.joiner_score + 1;
            self.state.rope_position = self.state.rope_position - 1;
        }
        let result = RoundResult {
            round: self.state.current_round,
            winner: player.clone(),
            word,
            new_rope_position: self.state.rope_position,
        };
        if self.state.current_round > self.max_rounds - 1 {
            self.state.status = GameStatus::Finished;
            return Ok(Some(result));
        }
        self.next_round(lexicon);
        Ok(Some(result))
    }

    /// Advances to the next round with a fresh hint and start time.
    fn next_round(&mut self, lexicon: &Lexicon)
        requires
            lexicon.wf(),
            old(self).state.current_round < old(self).max_rounds,
        ensures
            final(self).state.current_round == old(self).state.current_round + 1,
            valid_hint(lexicon@, final(self).state.hint_letters@),
            final(self).id == old(self).id,
            final(self).max_rounds == old(self).max_rounds,
            final(self).creator == old(self).creator,
            final(self).joiner == old(self).joiner,
            final(self).tx == old(self).tx,
            final(self).state.game_id == old(self).state.game_id,
            final(self).state.creator == old(self).state.creator,
            final(self).state.joiner == old(self).state.joiner,
            final(self).state.rope_position == old(self).state.rope_position,
            final(self).state.creator_score == old(self).state.creator_score,
            final(self).state.joiner_score == old(self).state.joiner_score,
            final(self).state.status == old(self).state.status,
    {
        self.state.current_round = self.state.current_round + 1;
        self.state.hint_letters = generate_hint_letters(lexicon);
        self.state.round_start_time = current_timestamp();
    }

    /// Publishes the current state to the hub and returns the message
    /// that was published.
    pub fn broadcast_state(&self) -> (m: GameMessage)
        ensures
            m == (GameMessage::GameState { state: self.state }),
    {
        let m = GameMessage::GameState { state: self.state.snapshot() };
        hub_publish(&self.tx, m.clone());
        m
    }

    /// The winner a finished rope position yields, as `winner_spec` says:
    /// nobody on a centred rope.
    pub fn get_winner(&self) -> (w: Option<String>)
        ensures
            (w is Some <==> winner_spec(*self) is Some),
            w matches Some(ws) ==> winner_spec(*self) == Some(ws@),
    {
        if self.state.rope_position > 0 {
            Some(self.state.creator.clone())
        } else if self.state.rope_position < 0 {
            match &self.state.joiner {
                Some(j) => Some(j.clone()),
                None => None,
            }
        } else {
            None
        }
    }

    /// When the session is finished, publishes the final tally and
    /// returns the message; otherwise does nothing. A finished session
    /// with nobody ahead, or with a negative rope and no joiner to take
    /// the win, is reported as a draw.
    pub fn check_n_broadcast_finish(&self) -> (m: Option<GameMessage>)
        ensures
            (m is Some <==> self.state.status == GameStatus::Finished),
            m matches Some(msg) ==> {
                &&& msg matches GameMessage::GameFinish { player_id, score }
                &&& score == self.state.rope_position
                &&& (winner_spec(*self) matches Some(ws) ==> player_id@ == ws)
                &&& (winner_spec(*self) is None ==> player_id@ == "Draw"@)
            },
    {
        if self.state.status == GameStatus::Finished {
            let player_id = match self.get_winner() {
                Some(w) => w,
                None => "Draw".to_owned(),
            };
            let msg = GameMessage::GameFinish { player_id, score: self.state.rope_position };
            hub_publish(&self.tx, msg.clone());
            Some(msg)
        } else {
            None
        }
    }
}

} // verus!

//! The events of the session feed, and how a JSON payload is read as one.

use crate::json::Json;
use crate::queue::Queue;
use crate::text::same_text;
use vstd::prelude::*;

verus! {

/// The phase that the game client says it is in. The client alone decides the
/// order of the phases.
#[derive(Debug, Clone, Copy, PartialEq, Eq, Hash, Structural)]
pub enum GamePhase {
    /// The client is in no phase at all; the feed calls this `None`.
    NoPhase,
    Lobby,
    Matchmaking,
    CheckedIntoTournament,
    ReadyCheck,
    ChampSelect,
    GameStart,
    FailedToLaunch,
    InProgress,
    Reconnect,
    WaitingForStats,
    PreEndOfGame,
    EndOfGame,
    TerminatedInError,
}

/// The client's name for a match. It is carried along and never taken apart.
#[derive(Debug, Clone, PartialEq, Eq)]
pub enum GameId {
    Number(i64),
    Text(String),
}

/// The name of a match, a text being a sequence of characters.
pub enum GameIdView {
    Number(i64),
    Text(Seq<char>),
}

impl View for GameId {
    type V = GameIdView;

    open spec fn view(&self) -> GameIdView {
        match self {
            GameId::Number(n) => GameIdView::Number(*n),
            GameId::Text(text) => GameIdView::Text(text@),
        }
    }
}

impl GameId {
    /// A second value of the same name.
    pub fn duplicate(&self) -> (same: GameId)
        ensures
            same@ == self@,
    {
        match self {
            GameId::Number(n) => GameId::Number(*n),
            GameId::Text(text) => GameId::Text(text.clone()),
        }
    }
}

/// What the client tells of the match that it is in.
#[derive(Debug, Clone, PartialEq, Eq)]
pub struct GameData {
    pub queue: Queue,
    pub game_id: GameId,
}

/// The data of a match, with the name of the match as a [`GameIdView`].
pub struct GameDataView {
    pub queue: Queue,
    pub game_id: GameIdView,
}

impl View for GameData {
    type V = GameDataView;

    open spec fn view(&self) -> GameDataView {
        GameDataView { queue: self.queue, game_id: self.game_id@ }
    }
}

/// The client's state while it has a match.
#[derive(Debug, Clone, PartialEq, Eq)]
pub struct SessionEventData {
    pub game_data: GameData,
    pub phase: GamePhase,
}

/// A session state, with its match data as a [`GameDataView`].
pub struct SessionEventDataView {
    pub game_data: GameDataView,
    pub phase: GamePhase,
}

impl View for SessionEventData {
    type V = SessionEventDataView;

    open spec fn view(&self) -> SessionEventDataView {
        SessionEventDataView { game_data: self.game_data@, phase: self.phase }
    }
}

/// One event of the feed.
#[derive(Debug, Clone, PartialEq, Eq)]
pub enum SubscriptionResponse {
    /// The client has a match and is in one of its phases.
    Session(SessionEventData),
    /// The empty object: the client has left the match altogether. This is not
    /// the phase `EndOfGame`, which still comes with the match's data.
    Eog,
}

/// An event, with its session state as a [`SessionEventDataView`].
pub enum SubscriptionResponseView {
    Session(SessionEventDataView),
    Eog,
}

impl View for SubscriptionResponse {
    type V = SubscriptionResponseView;

    open spec fn view(&self) -> SubscriptionResponseView {
        match self {
            SubscriptionResponse::Session(data) => SubscriptionResponseView::Session(data@),
            SubscriptionResponse::Eog => SubscriptionResponseView::Eog,
        }
    }
}

/// A payload that has neither of the two shapes of an event.
#[derive(Debug, Clone, Copy, PartialEq, Eq, Structural)]
pub struct ProtocolError {}

/// The name under which the feed gives `phase`.
pub open spec fn name_of(phase: GamePhase) -> Seq<char> {
    match phase {
        GamePhase::NoPhase => "None"@,
        GamePhase::Lobby => "Lobby"@,
        GamePhase::Matchmaking => "Matchmaking"@,
        GamePhase::CheckedIntoTournament => "CheckedIntoTournament"@,
        GamePhase::ReadyCheck => "ReadyCheck"@,
        GamePhase::ChampSelect => "ChampSelect"@,
        GamePhase::GameStart => "GameStart"@,
        GamePhase::FailedToLaunch => "FailedToLaunch"@,
        GamePhase::InProgress => "InProgress"@,
        GamePhase::Reconnect => "Reconnect"@,
        GamePhase::WaitingForStats => "WaitingForStats"@,
        GamePhase::PreEndOfGame => "PreEndOfGame"@,
        GamePhase::EndOfGame => "EndOfGame"@,
        GamePhase::TerminatedInError => "TerminatedInError"@,
    }
}

/// The phase that the feed gives under `name`, if it is the name of one.
pub open spec fn phase_named(name: Seq<char>) -> Option<GamePhase> {
    if exists|phase: GamePhase| name_of(phase) == name {
        Some(choose|phase: GamePhase| name_of(phase) == name)
    } else {
        None
    }
}

/// How long the name of `phase` is, and what letter it starts with.
pub open spec fn name_shape(phase: GamePhase) -> (nat, char) {
    match phase {
        GamePhase::NoPhase => (4, 'N'),
        GamePhase::Lobby => (5, 'L'),
        GamePhase::Matchmaking => (11, 'M'),
        GamePhase::CheckedIntoTournament => (21, 'C'),
        GamePhase::ReadyCheck => (10, 'R'),
        GamePhase::ChampSelect => (11, 'C'),
        GamePhase::GameStart => (9, 'G'),
        GamePhase::FailedToLaunch => (14, 'F'),
        GamePhase::InProgress => (10, 'I'),
        GamePhase::Reconnect => (9, 'R'),
        GamePhase::WaitingForStats => (15, 'W'),
        GamePhase::PreEndOfGame => (12, 'P'),
        GamePhase::EndOfGame => (9, 'E'),
        GamePhase::TerminatedInError => (17, 'T'),
    }
}

proof fn lemma_name_shape(phase: GamePhase)
    ensures
        name_shape(phase) == (name_of(phase).len(), name_of(phase)[0]),
{
    reveal_strlit("None");
    reveal_strlit("Lobby");
    reveal_strlit("Matchmaking");
    reveal_strlit("CheckedIntoTournament");
    reveal_strlit("ReadyCheck");
    reveal_strlit("ChampSelect");
    reveal_strlit("GameStart");
    reveal_strlit("FailedToLaunch");
    reveal_strlit("InProgress");
    reveal_strlit("Reconnect");
    reveal_strlit("WaitingForStats");
    reveal_strlit("PreEndOfGame");
    reveal_strlit("EndOfGame");
    reveal_strlit("TerminatedInError");
}

/// No two phases go by the same name.
pub proof fn lemma_phase_names_differ(a: GamePhase, b: GamePhase)
    requires
        name_of(a) == name_of(b),
    ensures
        a == b,
{
    lemma_name_shape(a);
    lemma_name_shape(b);
}

/// A phase is read back from its own name.
pub proof fn lemma_phase_named_by_its_name(phase: GamePhase)
    ensures
        phase_named(name_of(phase)) == Some(phase),
{
    let found = choose|other: GamePhase| name_of(other) == name_of(phase);
    lemma_phase_names_differ(found, phase);
}

/// The feed's name for `phase`.
pub fn phase_name(phase: GamePhase) -> (name: &'static str)
    ensures
        name@ == name_of(phase),
{
    match phase {
        GamePhase::NoPhase => "None",
        GamePhase::Lobby => "Lobby",
        GamePhase::Matchmaking => "Matchmaking",
        GamePhase::CheckedIntoTournament => "CheckedIntoTournament",
        GamePhase::ReadyCheck => "ReadyCheck",
        GamePhase::ChampSelect => "ChampSelect",
        GamePhase::GameStart => "GameStart",
        GamePhase::FailedToLaunch => "FailedToLaunch",
        GamePhase::InProgress => "InProgress",
        GamePhase::Reconnect => "Reconnect",
        GamePhase::WaitingForStats => "WaitingForStats",
        GamePhase::PreEndOfGame => "PreEndOfGame",
        GamePhase::EndOfGame => "EndOfGame",
        GamePhase::TerminatedInError => "TerminatedInError",
    }
}

/// All phases, in the order in which the type lists them.
pub fn all_phases() -> (phases: [GamePhase; 14])
    ensures
        forall|phase: GamePhase| phases@.contains(phase),
{
    let phases = [
        GamePhase::NoPhase,
        GamePhase::Lobby,
        GamePhase::Matchmaking,
        GamePhase::CheckedIntoTournament,
        GamePhase::ReadyCheck,
        GamePhase::ChampSelect,
        GamePhase::GameStart,
        GamePhase::FailedToLaunch,
        GamePhase::InProgress,
        GamePhase::Reconnect,
        GamePhase::WaitingForStats,
        GamePhase::PreEndOfGame,
        GamePhase::EndOfGame,
        GamePhase::TerminatedInError,
    ];
    assert forall|phase: GamePhase| phases@.contains(phase) by {
        let i: int = match phase {
            GamePhase::NoPhase => 0,
            GamePhase::Lobby => 1,
            GamePhase::Matchmaking => 2,
            GamePhase::CheckedIntoTournament => 3,
            GamePhase::ReadyCheck => 4,
            GamePhase::ChampSelect => 5,
            GamePhase::GameStart => 6,
            GamePhase::FailedToLaunch => 7,
            GamePhase::InProgress => 8,
            GamePhase::Reconnect => 9,
            GamePhase::WaitingForStats => 10,
            GamePhase::PreEndOfGame => 11,
            GamePhase::EndOfGame => 12,
            GamePhase::TerminatedInError => 13,
        };
        assert(phases@[i] == phase);
    }
    phases
}

/// Reads a phase from the name that the feed gives it.
pub fn decode_phase(name: &str) -> (phase: Option<GamePhase>)
    ensures
        phase == phase_named(name@),
{
    let phases = all_phases();
    let mut i: usize = 0;
    while i < 14
        invariant
            i <= 14,
            phases@.len() == 14,
            forall|phase: GamePhase| phases@.contains(phase),
            forall|k: int| 0 <= k < i ==> name_of(phases@[k]) != name@,
        decreases 14 - i,
    {
        if same_text(phase_name(phases[i]), name) {
            proof {
                lemma_phase_named_by_its_name(phases@[i as int]);
            }
            return Some(phases[i]);
        }
        i = i + 1;
    }
    proof {
        assert forall|phase: GamePhase| name_of(phase) != name@ by {
            assert(phases@.contains(phase));
            let k = choose|k: int| 0 <= k < phases@.len() && phases@[k] == phase;
            assert(name_of(phases@[k]) != name@);
        }
    }
    None
}

/// The view of what `value` holds, where it holds something.
pub open spec fn view_of<T: View>(value: Option<T>) -> Option<T::V> {
    match value {
        Some(inner) => Some(inner@),
        None => None,
    }
}

/// The queue that `json` describes: an object with a whole number `id` and a
/// boolean `isRanked`. Other members are passed over.
pub open spec fn queue_in(json: Json) -> Option<Queue> {
    match (json.member("id"@), json.member("isRanked"@)) {
        (Some(Json::Integer(id)), Some(Json::Bool(is_ranked))) => Some(Queue { id, is_ranked }),
        _ => None,
    }
}

/// The match name that `json` gives: a text or a whole number.
pub open spec fn game_id_in(json: Json) -> Option<GameIdView> {
    match json {
        Json::Integer(n) => Some(GameIdView::Number(n)),
        Json::Text(text) => Some(GameIdView::Text(text@)),
        _ => None,
    }
}

/// The match data that `json` describes: an object with a `queue` and a
/// `gameId`.
pub open spec fn game_data_in(json: Json) -> Option<GameDataView> {
    match (json.member("queue"@), json.member("gameId"@)) {
        (Some(queue), Some(game_id)) => match (queue_in(queue), game_id_in(game_id)) {
            (Some(queue), Some(game_id)) => Some(GameDataView { queue, game_id }),
            _ => None,
        },
        _ => None,
    }
}

/// The session state that `json` describes: an object with `gameData` and
/// with a `phase` that is the name of a phase.
pub open spec fn session_in(json: Json) -> Option<SessionEventDataView> {
    match (json.member("gameData"@), json.member("phase"@)) {
        (Some(game_data), Some(Json::Text(phase))) => match (
            game_data_in(game_data),
            phase_named(phase@),
        ) {
            (Some(game_data), Some(phase)) => Some(SessionEventDataView { game_data, phase }),
            _ => None,
        },
        _ => None,
    }
}

/// The event that `json` is: the session state where it has that shape; if
/// not, the end of the match where it is the empty object; if not, no event.
pub open spec fn event_in(json: Json) -> Result<SubscriptionResponseView, ProtocolError> {
    match session_in(json) {
        Some(data) => Ok(SubscriptionResponseView::Session(data)),
        None => if json.is_empty_object() {
            Ok(SubscriptionResponseView::Eog)
        } else {
            Err(ProtocolError {  })
        },
    }
}

/// The view of an outcome of decoding.
pub open spec fn decoded(outcome: Result<SubscriptionResponse, ProtocolError>) -> Result<
    SubscriptionResponseView,
    ProtocolError,
> {
    match outcome {
        Ok(event) => Ok(event@),
        Err(error) => Err(error),
    }
}

/// The empty object is the end of the match, whatever else is tried first.
pub proof fn lemma_empty_object_is_eog(json: Json)
    requires
        json.is_empty_object(),
    ensures
        event_in(json) == Ok::<SubscriptionResponseView, ProtocolError>(
            SubscriptionResponseView::Eog,
        ),
{
}

/// A payload that is no object is no event.
pub proof fn lemma_only_objects_are_events(json: Json)
    requires
        !(json is Object),
    ensures
        event_in(json) is Err,
{
}

/// Reads a queue from its JSON object.
pub fn decode_queue(json: &Json) -> (queue: Option<Queue>)
    ensures
        queue == queue_in(*json),
{
    match (json.get("id"), json.get("isRanked")) {
        (Some(Json::Integer(id)), Some(Json::Bool(is_ranked))) => Some(
            Queue { id: *id, is_ranked: *is_ranked },
        ),
        _ => None,
    }
}

/// Reads the name of a match from its JSON value.
pub fn decode_game_id(json: &Json) -> (game_id: Option<GameId>)
    ensures
        view_of(game_id) == game_id_in(*json),
{
    match json {
        Json::Integer(n) => Some(GameId::Number(*n)),
        Json::Text(text) => Some(GameId::Text(text.clone())),
        _ => None,
    }
}

/// Reads the data of a match from its JSON object.
pub fn decode_game_data(json: &Json) -> (game_data: Option<GameData>)
    ensures
        view_of(game_data) == game_data_in(*json),
{
    match (json.get("queue"), json.get("gameId")) {
        (Some(queue), Some(game_id)) => match (decode_queue(queue), decode_game_id(game_id)) {
            (Some(queue), Some(game_id)) => Some(GameData { queue, game_id }),
            _ => None,
        },
        _ => None,
    }
}

/// Reads a session state from its JSON object.
pub fn decode_session(json: &Json) -> (session: Option<SessionEventData>)
    ensures
        view_of(session) == session_in(*json),
{
    match (json.get("gameData"), json.get("phase")) {
        (Some(game_data), Some(Json::Text(phase))) => match (
            decode_game_data(game_data),
            decode_phase(phase.as_str()),
        ) {
            (Some(game_data), Some(phase)) => Some(SessionEventData { game_data, phase }),
            _ => None,
        },
        _ => None,
    }
}

/// Reads one payload of the feed. The session shape is tried first, then the
/// empty object; a payload of neither shape is refused.
pub fn decode(json: &Json) -> (outcome: Result<SubscriptionResponse, ProtocolError>)
    ensures
        decoded(outcome) == event_in(*json),
{
    match decode_session(json) {
        Some(data) => Ok(SubscriptionResponse::Session(data)),
        None => if json.has_no_members() {
            Ok(SubscriptionResponse::Eog)
        } else {
            Err(ProtocolError {  })
        },
    }
}

} // verus!

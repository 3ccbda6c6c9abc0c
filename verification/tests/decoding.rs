use league_record::json::Json;
use league_record::queue::Queue;
use league_record::session_event::{
    all_phases, decode, decode_game_data, decode_game_id, decode_phase, decode_queue,
    decode_session, phase_name, GameData, GameId, GamePhase, ProtocolError, SessionEventData,
    SubscriptionResponse,
};

fn text(value: &str) -> Json {
    Json::Text(value.to_string())
}

fn object(members: Vec<(&str, Json)>) -> Json {
    Json::Object(members.into_iter().map(|(name, value)| (name.to_string(), value)).collect())
}

fn queue(id: i64, is_ranked: bool) -> Json {
    object(vec![("id", Json::Integer(id)), ("isRanked", Json::Bool(is_ranked))])
}

fn session(id: i64, is_ranked: bool, game_id: Json, phase: &str) -> Json {
    object(vec![
        ("gameData", object(vec![("queue", queue(id, is_ranked)), ("gameId", game_id)])),
        ("phase", text(phase)),
    ])
}

#[test]
fn session_payload_is_a_session() {
    let payload = session(420, true, text("abc"), "InProgress");
    let expected = SubscriptionResponse::Session(SessionEventData {
        game_data: GameData {
            queue: Queue { id: 420, is_ranked: true },
            game_id: GameId::Text("abc".to_string()),
        },
        phase: GamePhase::InProgress,
    });
    assert_eq!(decode(&payload), Ok(expected));
}

#[test]
fn empty_object_is_the_end_of_the_match() {
    assert_eq!(decode(&object(vec![])), Ok(SubscriptionResponse::Eog));
}

#[test]
fn object_of_another_shape_is_refused() {
    let payload = object(vec![("foo", Json::Integer(1))]);
    assert_eq!(decode(&payload), Err(ProtocolError {}));
}

#[test]
fn payload_that_is_no_object_is_refused() {
    assert_eq!(decode(&Json::Null), Err(ProtocolError {}));
    assert_eq!(decode(&Json::Bool(true)), Err(ProtocolError {}));
    assert_eq!(decode(&Json::Integer(0)), Err(ProtocolError {}));
    assert_eq!(decode(&Json::OtherNumber), Err(ProtocolError {}));
    assert_eq!(decode(&text("InProgress")), Err(ProtocolError {}));
    assert_eq!(decode(&Json::Array(vec![])), Err(ProtocolError {}));
}

#[test]
fn session_may_carry_other_members() {
    let payload = object(vec![
        ("map", object(vec![("id", Json::Integer(11))])),
        ("phase", text("Lobby")),
        (
            "gameData",
            object(vec![
                ("gameId", Json::Integer(6543210987)),
                ("isCustomGame", Json::Bool(false)),
                ("queue", object(vec![
                    ("name", text("Flex")),
                    ("isRanked", Json::Bool(true)),
                    ("id", Json::Integer(440)),
                ])),
            ]),
        ),
    ]);
    let expected = SubscriptionResponse::Session(SessionEventData {
        game_data: GameData {
            queue: Queue { id: 440, is_ranked: true },
            game_id: GameId::Number(6543210987),
        },
        phase: GamePhase::Lobby,
    });
    assert_eq!(decode(&payload), Ok(expected));
}

#[test]
fn session_without_phase_is_refused() {
    let payload = object(vec![(
        "gameData",
        object(vec![("queue", queue(420, true)), ("gameId", text("abc"))]),
    )]);
    assert_eq!(decode_session(&payload), None);
    assert_eq!(decode(&payload), Err(ProtocolError {}));
}

#[test]
fn session_without_game_data_is_refused() {
    let payload = object(vec![("phase", text("InProgress"))]);
    assert_eq!(decode(&payload), Err(ProtocolError {}));
}

#[test]
fn session_with_unknown_phase_is_refused() {
    let payload = session(420, true, text("abc"), "Paused");
    assert_eq!(decode(&payload), Err(ProtocolError {}));
    let payload = session(420, true, text("abc"), "inProgress");
    assert_eq!(decode(&payload), Err(ProtocolError {}));
}

#[test]
fn phase_must_be_a_text() {
    let payload = object(vec![
        ("gameData", object(vec![("queue", queue(420, true)), ("gameId", text("abc"))])),
        ("phase", Json::Integer(8)),
    ]);
    assert_eq!(decode(&payload), Err(ProtocolError {}));
}

#[test]
fn end_of_game_phase_keeps_its_match_data() {
    let payload = session(450, false, text("m-1"), "EndOfGame");
    match decode(&payload) {
        Ok(SubscriptionResponse::Session(data)) => {
            assert_eq!(data.phase, GamePhase::EndOfGame);
            assert_eq!(data.game_data.queue, Queue { id: 450, is_ranked: false });
            assert_eq!(data.game_data.game_id, GameId::Text("m-1".to_string()));
        }
        other => panic!("no session: {:?}", other),
    }
}

#[test]
fn queue_needs_a_whole_id_and_a_boolean_flag() {
    assert_eq!(decode_queue(&queue(-7, false)), Some(Queue { id: -7, is_ranked: false }));
    let fraction = object(vec![("id", Json::OtherNumber), ("isRanked", Json::Bool(true))]);
    assert_eq!(decode_queue(&fraction), None);
    let text_id = object(vec![("id", text("420")), ("isRanked", Json::Bool(true))]);
    assert_eq!(decode_queue(&text_id), None);
    let number_flag = object(vec![("id", Json::Integer(420)), ("isRanked", Json::Integer(1))]);
    assert_eq!(decode_queue(&number_flag), None);
    let no_flag = object(vec![("id", Json::Integer(420))]);
    assert_eq!(decode_queue(&no_flag), None);
    let snake_case = object(vec![("id", Json::Integer(420)), ("is_ranked", Json::Bool(true))]);
    assert_eq!(decode_queue(&snake_case), None);
    assert_eq!(decode_queue(&Json::Array(vec![Json::Integer(420), Json::Bool(true)])), None);
}

#[test]
fn game_id_is_a_text_or_a_whole_number() {
    assert_eq!(decode_game_id(&text("")), Some(GameId::Text(String::new())));
    assert_eq!(decode_game_id(&Json::Integer(i64::MIN)), Some(GameId::Number(i64::MIN)));
    assert_eq!(decode_game_id(&Json::OtherNumber), None);
    assert_eq!(decode_game_id(&Json::Null), None);
    assert_eq!(decode_game_id(&Json::Bool(false)), None);
    assert_eq!(decode_game_id(&object(vec![])), None);
}

#[test]
fn game_data_needs_queue_and_game_id() {
    let whole = object(vec![("queue", queue(1, false)), ("gameId", Json::Integer(5))]);
    assert_eq!(
        decode_game_data(&whole),
        Some(GameData { queue: Queue { id: 1, is_ranked: false }, game_id: GameId::Number(5) })
    );
    assert_eq!(decode_game_data(&object(vec![("queue", queue(1, false))])), None);
    assert_eq!(decode_game_data(&object(vec![("gameId", Json::Integer(5))])), None);
    let null_id = object(vec![("queue", queue(1, false)), ("gameId", Json::Null)]);
    assert_eq!(decode_game_data(&null_id), None);
}

#[test]
fn first_member_of_a_name_counts() {
    let payload = object(vec![
        ("id", Json::Integer(420)),
        ("id", Json::Integer(450)),
        ("isRanked", Json::Bool(true)),
    ]);
    assert_eq!(decode_queue(&payload), Some(Queue { id: 420, is_ranked: true }));
    assert_eq!(payload.get("id"), Some(&Json::Integer(420)));
    assert_eq!(payload.get("Id"), None);
    assert_eq!(Json::Null.get("id"), None);
}

#[test]
fn empty_object_has_no_members() {
    assert!(object(vec![]).has_no_members());
    assert!(!object(vec![("a", Json::Null)]).has_no_members());
    assert!(!Json::Array(vec![]).has_no_members());
    assert!(!Json::Null.has_no_members());
}

#[test]
fn every_phase_is_read_back_from_its_name() {
    let phases = all_phases();
    assert_eq!(phases.len(), 14);
    for phase in phases {
        assert_eq!(decode_phase(phase_name(phase)), Some(phase));
    }
}

#[test]
fn phases_have_the_names_of_the_feed() {
    assert_eq!(phase_name(GamePhase::NoPhase), "None");
    assert_eq!(phase_name(GamePhase::Lobby), "Lobby");
    assert_eq!(phase_name(GamePhase::Matchmaking), "Matchmaking");
    assert_eq!(phase_name(GamePhase::CheckedIntoTournament), "CheckedIntoTournament");
    assert_eq!(phase_name(GamePhase::ReadyCheck), "ReadyCheck");
    assert_eq!(phase_name(GamePhase::ChampSelect), "ChampSelect");
    assert_eq!(phase_name(GamePhase::GameStart), "GameStart");
    assert_eq!(phase_name(GamePhase::FailedToLaunch), "FailedToLaunch");
    assert_eq!(phase_name(GamePhase::InProgress), "InProgress");
    assert_eq!(phase_name(GamePhase::Reconnect), "Reconnect");
    assert_eq!(phase_name(GamePhase::WaitingForStats), "WaitingForStats");
    assert_eq!(phase_name(GamePhase::PreEndOfGame), "PreEndOfGame");
    assert_eq!(phase_name(GamePhase::EndOfGame), "EndOfGame");
    assert_eq!(phase_name(GamePhase::TerminatedInError), "TerminatedInError");
}

#[test]
fn phase_names_are_exact() {
    assert_eq!(decode_phase("None"), Some(GamePhase::NoPhase));
    assert_eq!(decode_phase("none"), None);
    assert_eq!(decode_phase(""), None);
    assert_eq!(decode_phase("NoPhase"), None);
    assert_eq!(decode_phase("EndOfGame "), None);
    assert_eq!(decode_phase("GameStar"), None);
}

#[test]
fn game_id_is_duplicated_as_it_is() {
    let number = GameId::Number(-3);
    assert_eq!(number.duplicate(), number);
    let text = GameId::Text("EUW1-123".to_string());
    assert_eq!(text.duplicate(), text);
}

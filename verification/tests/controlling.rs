use league_record::clock::Timestamp;
use league_record::controller::{
    starts_capture, stops_capture, Action, CaptureError, CaptureStage, Completion,
    RecordingController, RecordingSession,
};
use league_record::json::Json;
use league_record::monitor::{FeedItem, Observation, PhaseTransition, SessionMonitor};
use league_record::queue::Queue;
use league_record::recordings::RecordingsFolder;
use league_record::session_event::{
    all_phases, GameData, GameId, GamePhase, SessionEventData, SubscriptionResponse,
};

fn folder() -> RecordingsFolder {
    RecordingsFolder::open("/home/me/Videos/league_recordings".to_string(), "/", true).unwrap()
}

fn elsewhere() -> RecordingsFolder {
    RecordingsFolder::open("D:\\clips".to_string(), "\\", true).unwrap()
}

fn at(second: u32) -> Timestamp {
    Timestamp::new(2024, 3, 9, 21, 5, second).unwrap()
}

fn data(queue_id: i64) -> GameData {
    GameData {
        queue: Queue { id: queue_id, is_ranked: queue_id == 420 },
        game_id: GameId::Number(77),
    }
}

fn to(phase: GamePhase, game_data: Option<GameData>) -> PhaseTransition {
    PhaseTransition { from: None, to: phase, game_data }
}

fn kinds(phases: &[GamePhase]) -> (Vec<&'static str>, RecordingController) {
    let mut controller = RecordingController::new();
    let mut seen = Vec::new();
    for (i, phase) in phases.iter().enumerate() {
        let action = controller.handle(&to(*phase, Some(data(420))), &folder(), &at(i as u32));
        seen.push(match action {
            Action::Continue => "continue",
            Action::Start { .. } => "start",
            Action::Stop { .. } => "stop",
        });
    }
    (seen, controller)
}

#[test]
fn new_controller_is_idle() {
    let controller = RecordingController::new();
    assert!(!controller.is_recording());
    assert_eq!(controller.session(), None);
}

#[test]
fn start_and_stop_triggers() {
    for phase in all_phases() {
        let starts = phase == GamePhase::GameStart || phase == GamePhase::InProgress;
        let stops = phase == GamePhase::EndOfGame
            || phase == GamePhase::TerminatedInError
            || phase == GamePhase::FailedToLaunch;
        assert_eq!(starts_capture(phase), starts);
        assert_eq!(stops_capture(phase), stops);
    }
}

#[test]
fn two_game_starts_start_one_capture() {
    let (seen, controller) =
        kinds(&[GamePhase::GameStart, GamePhase::GameStart, GamePhase::EndOfGame]);
    assert_eq!(seen, vec!["start", "continue", "stop"]);
    assert!(!controller.is_recording());
}

#[test]
fn idle_controller_starts_only_on_a_match() {
    for phase in all_phases() {
        let (seen, controller) = kinds(&[phase]);
        let starts = phase == GamePhase::GameStart || phase == GamePhase::InProgress;
        assert_eq!(seen, vec![if starts { "start" } else { "continue" }]);
        assert_eq!(controller.is_recording(), starts);
    }
}

#[test]
fn recording_controller_stops_only_at_the_end() {
    for phase in all_phases() {
        let (seen, controller) = kinds(&[GamePhase::GameStart, phase]);
        let stops = phase == GamePhase::EndOfGame
            || phase == GamePhase::TerminatedInError
            || phase == GamePhase::FailedToLaunch;
        assert_eq!(seen, vec!["start", if stops { "stop" } else { "continue" }]);
        assert_eq!(controller.is_recording(), !stops);
    }
}

#[test]
fn recording_iff_started_since_the_last_stop() {
    let phases = all_phases();
    for a in phases {
        for b in phases {
            for c in phases {
                let trace = [a, b, c];
                let (_, controller) = kinds(&trace);
                let mut expected = false;
                for phase in trace {
                    if starts_capture(phase) {
                        expected = true;
                    }
                    if stops_capture(phase) {
                        expected = false;
                    }
                }
                assert_eq!(controller.is_recording(), expected, "{:?}", trace);
            }
        }
    }
}

#[test]
fn starts_and_stops_alternate() {
    let phases = all_phases();
    for a in phases {
        for b in phases {
            for c in phases {
                for d in [GamePhase::GameStart, GamePhase::EndOfGame, GamePhase::Lobby] {
                    let (seen, _) = kinds(&[a, b, c, d]);
                    let mut running = false;
                    for kind in seen {
                        if kind == "start" {
                            assert!(!running);
                            running = true;
                        } else if kind == "stop" {
                            assert!(running);
                            running = false;
                        }
                    }
                }
            }
        }
    }
}

#[test]
fn capture_starts_in_the_middle_of_a_match() {
    let (seen, _) = kinds(&[GamePhase::InProgress, GamePhase::WaitingForStats]);
    assert_eq!(seen, vec!["start", "continue"]);
}

#[test]
fn start_opens_a_labelled_session() {
    let mut controller = RecordingController::new();
    let action = controller.handle(&to(GamePhase::GameStart, Some(data(420))), &folder(), &at(7));
    let path = "/home/me/Videos/league_recordings/2024-03-09_21-05-07.mp4".to_string();
    assert_eq!(action, Action::Start { path: path.clone() });
    let expected = RecordingSession {
        file_path: path,
        started_at: at(7),
        queue_label: "Ranked Solo/Duo".to_string(),
        game_id: Some(GameId::Number(77)),
    };
    assert_eq!(controller.session(), Some(&expected));
    assert!(controller.is_recording());
}

#[test]
fn start_without_match_data_has_the_unknown_label() {
    let mut controller = RecordingController::new();
    controller.handle(&to(GamePhase::InProgress, None), &folder(), &at(0));
    let session = controller.session().unwrap();
    assert_eq!(session.queue_label, "unknown");
    assert_eq!(session.game_id, None);
}

#[test]
fn start_with_unlisted_queue_has_the_unknown_label() {
    let mut controller = RecordingController::new();
    controller.handle(&to(GamePhase::GameStart, Some(data(999999))), &folder(), &at(0));
    assert_eq!(controller.session().unwrap().queue_label, "unknown");
}

#[test]
fn stop_hands_the_session_out() {
    let mut controller = RecordingController::new();
    controller.handle(&to(GamePhase::GameStart, Some(data(450))), &folder(), &at(1));
    let running = controller.session().cloned().unwrap();
    assert_eq!(running.queue_label, "ARAM");
    let later = at(59);
    let action = controller.handle(&to(GamePhase::EndOfGame, Some(data(450))), &elsewhere(), &later);
    assert_eq!(action, Action::Stop { session: running, completion: Completion::Finished });
    assert_eq!(controller.session(), None);
}

#[test]
fn terminated_in_error_stops_the_capture() {
    let mut controller = RecordingController::new();
    controller.handle(&to(GamePhase::InProgress, Some(data(450))), &folder(), &at(1));
    let action = controller.handle(&to(GamePhase::TerminatedInError, None), &folder(), &at(2));
    match action {
        Action::Stop { completion, .. } => assert_eq!(completion, Completion::Finished),
        other => panic!("no stop: {:?}", other),
    }
    assert!(!controller.is_recording());
}

#[test]
fn continue_leaves_the_session_alone() {
    let mut controller = RecordingController::new();
    controller.handle(&to(GamePhase::GameStart, Some(data(420))), &folder(), &at(1));
    let running = controller.session().cloned();
    for phase in [
        GamePhase::InProgress,
        GamePhase::Reconnect,
        GamePhase::WaitingForStats,
        GamePhase::PreEndOfGame,
        GamePhase::GameStart,
        GamePhase::Lobby,
    ] {
        let action = controller.handle(&to(phase, Some(data(450))), &elsewhere(), &at(30));
        assert_eq!(action, Action::Continue);
        assert_eq!(controller.session().cloned(), running);
    }
}

#[test]
fn failed_start_forces_the_controller_idle() {
    let mut controller = RecordingController::new();
    controller.handle(&to(GamePhase::GameStart, Some(data(420))), &folder(), &at(1));
    let running = controller.session().cloned();
    let error = controller.capture_failed(CaptureStage::Start);
    assert_eq!(error, CaptureError { stage: CaptureStage::Start, abandoned: running });
    assert!(!controller.is_recording());
    let action = controller.handle(&to(GamePhase::InProgress, Some(data(420))), &folder(), &at(2));
    assert!(matches!(action, Action::Start { .. }));
}

#[test]
fn failed_stop_leaves_the_controller_idle() {
    let mut controller = RecordingController::new();
    controller.handle(&to(GamePhase::GameStart, Some(data(420))), &folder(), &at(1));
    controller.handle(&to(GamePhase::EndOfGame, Some(data(420))), &folder(), &at(2));
    let error = controller.capture_failed(CaptureStage::Stop);
    assert_eq!(error, CaptureError { stage: CaptureStage::Stop, abandoned: None });
    assert!(!controller.is_recording());
}

#[test]
fn shut_down_stops_what_runs() {
    let mut controller = RecordingController::new();
    assert_eq!(controller.shut_down(), Action::Continue);
    controller.handle(&to(GamePhase::InProgress, Some(data(420))), &folder(), &at(1));
    let running = controller.session().cloned().unwrap();
    let action = controller.shut_down();
    assert_eq!(action, Action::Stop { session: running, completion: Completion::Interrupted });
    assert!(!controller.is_recording());
    assert_eq!(controller.shut_down(), Action::Continue);
}

fn session_event(queue_id: i64, phase: GamePhase) -> SubscriptionResponse {
    SubscriptionResponse::Session(SessionEventData { game_data: data(queue_id), phase })
}

#[test]
fn whole_match_gives_one_recording() {
    let mut monitor = SessionMonitor::new();
    let mut controller = RecordingController::new();
    let phases = [
        GamePhase::Lobby,
        GamePhase::ChampSelect,
        GamePhase::GameStart,
        GamePhase::InProgress,
        GamePhase::WaitingForStats,
        GamePhase::EndOfGame,
    ];
    let mut started = Vec::new();
    let mut stopped = Vec::new();
    for (i, phase) in phases.iter().enumerate() {
        let transition = monitor.observe(session_event(420, *phase));
        match controller.handle(&transition, &folder(), &at(i as u32)) {
            Action::Start { path } => started.push((transition.to, path)),
            Action::Stop { session, completion } => stopped.push((transition.to, session, completion)),
            Action::Continue => {}
        }
    }
    let path = "/home/me/Videos/league_recordings/2024-03-09_21-05-02.mp4".to_string();
    assert_eq!(started, vec![(GamePhase::GameStart, path.clone())]);
    let session = RecordingSession {
        file_path: path,
        started_at: at(2),
        queue_label: "Ranked Solo/Duo".to_string(),
        game_id: Some(GameId::Number(77)),
    };
    assert_eq!(stopped, vec![(GamePhase::EndOfGame, session, Completion::Finished)]);
    assert!(!controller.is_recording());
}

#[test]
fn failed_launch_gives_an_aborted_recording() {
    let mut monitor = SessionMonitor::new();
    let mut controller = RecordingController::new();
    let first = monitor.observe(session_event(450, GamePhase::GameStart));
    let action = controller.handle(&first, &folder(), &at(10));
    assert!(matches!(action, Action::Start { .. }));
    assert!(controller.is_recording());
    let second = monitor.observe(session_event(450, GamePhase::FailedToLaunch));
    assert_eq!(second.from, Some(GamePhase::GameStart));
    match controller.handle(&second, &folder(), &at(11)) {
        Action::Stop { session, completion } => {
            assert_eq!(completion, Completion::Aborted);
            assert_eq!(session.queue_label, "ARAM");
            assert_eq!(session.started_at, at(10));
        }
        other => panic!("no stop: {:?}", other),
    }
    assert!(!controller.is_recording());
}

#[test]
fn empty_object_stops_the_capture() {
    let mut monitor = SessionMonitor::new();
    let mut controller = RecordingController::new();
    let transition = monitor.observe(session_event(420, GamePhase::InProgress));
    controller.handle(&transition, &folder(), &at(1));
    let seen = monitor.receive(&FeedItem::Payload(Json::Object(vec![])));
    let transition = match seen {
        Observation::Transition(transition) => transition,
        other => panic!("no transition: {:?}", other),
    };
    let action = controller.handle(&transition, &folder(), &at(2));
    assert!(matches!(action, Action::Stop { completion: Completion::Finished, .. }));
    assert!(!controller.is_recording());
}

#[test]
fn failed_launch_while_idle_changes_nothing() {
    let (seen, controller) = kinds(&[GamePhase::ChampSelect, GamePhase::FailedToLaunch]);
    assert_eq!(seen, vec!["continue", "continue"]);
    assert!(!controller.is_recording());
}

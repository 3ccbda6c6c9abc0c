//! The recording controller: decides from each phase transition whether the
//! capture starts, goes on or stops. It holds at most one recording.

use crate::clock::{Moment, Timestamp};
use crate::monitor::{phase_of, PhaseTransition, PhaseTransitionView};
use crate::queue::{label_for, label_of, UNKNOWN_LABEL};
use crate::recordings::{
    get_new_filepath, recording_path, RecordingsFolder, RecordingsFolderView,
};
use crate::session_event::{
    view_of, GameId, GameIdView, GamePhase, SubscriptionResponseView,
};
use vstd::prelude::*;

verus! {

/// Whether the controller has a recording.
#[derive(Debug, Clone, Copy, PartialEq, Eq, Structural)]
pub enum ControllerState {
    Idle,
    Recording,
}

/// What the controller decides on a transition.
#[derive(Debug, Clone, Copy, PartialEq, Eq, Structural)]
pub enum Decision {
    /// Nothing changes.
    Continue,
    /// The capture starts.
    Start,
    /// The capture stops.
    Stop,
}

/// How a recording came to its end.
#[derive(Debug, Clone, Copy, PartialEq, Eq, Structural)]
pub enum Completion {
    /// The match ended.
    Finished,
    /// The match failed to launch. The file is kept, but it is no whole match.
    Aborted,
    /// The monitoring was shut down while the match went on.
    Interrupted,
}

/// The two calls into the capture engine.
#[derive(Debug, Clone, Copy, PartialEq, Eq, Structural)]
pub enum CaptureStage {
    Start,
    Stop,
}

/// Whether a match is played in `phase`, so that the capture starts where none
/// runs. A monitor that joins in the middle of a match never sees
/// `GameStart`, so `InProgress` starts the capture as well.
pub open spec fn is_start_trigger(phase: GamePhase) -> bool {
    phase == GamePhase::GameStart || phase == GamePhase::InProgress
}

/// Whether the match is over in `phase`, so that the capture stops. The empty
/// object reaches the controller as `EndOfGame`.
pub open spec fn is_stop_trigger(phase: GamePhase) -> bool {
    phase == GamePhase::EndOfGame || phase == GamePhase::TerminatedInError || phase
        == GamePhase::FailedToLaunch
}

/// What the controller decides when it is in `state` and the client goes to
/// `phase`.
pub open spec fn decision_on(state: ControllerState, phase: GamePhase) -> Decision {
    match state {
        ControllerState::Idle => if is_start_trigger(phase) {
            Decision::Start
        } else {
            Decision::Continue
        },
        ControllerState::Recording => if is_stop_trigger(phase) {
            Decision::Stop
        } else {
            Decision::Continue
        },
    }
}

/// The state that the controller is in after it was in `state` and the client
/// went to `phase`.
pub open spec fn next_state(state: ControllerState, phase: GamePhase) -> ControllerState {
    match decision_on(state, phase) {
        Decision::Start => ControllerState::Recording,
        Decision::Stop => ControllerState::Idle,
        Decision::Continue => state,
    }
}

/// How a recording ends that is stopped because the client went to `phase`.
pub open spec fn completion_on(phase: GamePhase) -> Completion {
    if phase == GamePhase::FailedToLaunch {
        Completion::Aborted
    } else {
        Completion::Finished
    }
}

/// Whether `phase` starts the capture where none runs.
pub fn starts_capture(phase: GamePhase) -> (starts: bool)
    ensures
        starts == is_start_trigger(phase),
{
    match phase {
        GamePhase::GameStart | GamePhase::InProgress => true,
        _ => false,
    }
}

/// Whether `phase` stops the capture that runs.
pub fn stops_capture(phase: GamePhase) -> (stops: bool)
    ensures
        stops == is_stop_trigger(phase),
{
    match phase {
        GamePhase::EndOfGame | GamePhase::TerminatedInError | GamePhase::FailedToLaunch => true,
        _ => false,
    }
}

/// One recording, from the decision to start it to the decision to stop it.
#[derive(Debug, Clone, PartialEq, Eq)]
pub struct RecordingSession {
    pub file_path: String,
    pub started_at: Timestamp,
    pub queue_label: String,
    pub game_id: Option<GameId>,
}

/// A recording, with its texts as sequences of characters.
pub struct RecordingSessionView {
    pub file_path: Seq<char>,
    pub started_at: Moment,
    pub queue_label: Seq<char>,
    pub game_id: Option<GameIdView>,
}

impl View for RecordingSession {
    type V = RecordingSessionView;

    open spec fn view(&self) -> RecordingSessionView {
        RecordingSessionView {
            file_path: self.file_path@,
            started_at: self.started_at@,
            queue_label: self.queue_label@,
            game_id: view_of(self.game_id),
        }
    }
}

/// The recording that starts on `transition` at the moment `now`, in `folder`.
/// It has the label of the match's queue and the name of the match; without
/// match data the label is the unknown one and the name is missing.
pub open spec fn session_opened(
    transition: PhaseTransitionView,
    folder: RecordingsFolderView,
    now: Moment,
) -> RecordingSessionView {
    RecordingSessionView {
        file_path: recording_path(folder, now),
        started_at: now,
        queue_label: match transition.game_data {
            Some(data) => label_of(data.queue.id),
            None => UNKNOWN_LABEL@,
        },
        game_id: match transition.game_data {
            Some(data) => Some(data.game_id),
            None => None,
        },
    }
}

/// What the caller has to do for the controller.
#[derive(Debug, Clone, PartialEq, Eq)]
pub enum Action {
    /// Nothing.
    Continue,
    /// Start the capture into the file at `path`.
    Start { path: String },
    /// Stop the capture. `session` is the recording that ends.
    Stop { session: RecordingSession, completion: Completion },
}

/// An action, with what it carries seen as in [`RecordingSessionView`].
pub enum ActionView {
    Continue,
    Start { path: Seq<char> },
    Stop { session: RecordingSessionView, completion: Completion },
}

impl View for Action {
    type V = ActionView;

    open spec fn view(&self) -> ActionView {
        match self {
            Action::Continue => ActionView::Continue,
            Action::Start { path } => ActionView::Start { path: path@ },
            Action::Stop { session, completion } => ActionView::Stop {
                session: session@,
                completion: *completion,
            },
        }
    }
}

impl ActionView {
    /// The decision that this action carries out.
    pub open spec fn decision(self) -> Decision {
        match self {
            ActionView::Continue => Decision::Continue,
            ActionView::Start { .. } => Decision::Start,
            ActionView::Stop { .. } => Decision::Stop,
        }
    }
}

/// The state of a controller that holds `running`.
pub open spec fn state_of(running: Option<RecordingSessionView>) -> ControllerState {
    if running is Some {
        ControllerState::Recording
    } else {
        ControllerState::Idle
    }
}

/// What a controller that holds `running` asks for on `transition`: to start
/// the capture into a new file where it is idle and a match is played; to stop
/// it, and what it held, where it records and the match is over; else nothing.
pub open spec fn action_on(
    running: Option<RecordingSessionView>,
    transition: PhaseTransitionView,
    folder: RecordingsFolderView,
    now: Moment,
) -> ActionView {
    match running {
        None => if is_start_trigger(transition.to) {
            ActionView::Start { path: recording_path(folder, now) }
        } else {
            ActionView::Continue
        },
        Some(session) => if is_stop_trigger(transition.to) {
            ActionView::Stop { session, completion: completion_on(transition.to) }
        } else {
            ActionView::Continue
        },
    }
}

/// What a controller that holds `running` holds after `transition`.
pub open spec fn session_on(
    running: Option<RecordingSessionView>,
    transition: PhaseTransitionView,
    folder: RecordingsFolderView,
    now: Moment,
) -> Option<RecordingSessionView> {
    match decision_on(state_of(running), transition.to) {
        Decision::Start => Some(session_opened(transition, folder, now)),
        Decision::Stop => None,
        Decision::Continue => running,
    }
}

/// The capture engine failed at `stage`. `abandoned` is the recording that the
/// controller gave up on that account.
#[derive(Debug, Clone, PartialEq, Eq)]
pub struct CaptureError {
    pub stage: CaptureStage,
    pub abandoned: Option<RecordingSession>,
}

/// The controller. It is idle, or it holds the one recording that runs.
pub struct RecordingController {
    session: Option<RecordingSession>,
    /// The phases that the client went through since the controller was made,
    /// or since it was last forced to be idle.
    history: Ghost<Seq<GamePhase>>,
}

impl View for RecordingController {
    type V = Option<RecordingSessionView>;

    closed spec fn view(&self) -> Option<RecordingSessionView> {
        view_of(self.session)
    }
}

/// The state of a controller that was idle before the client went through the
/// phases of `trace`.
pub open spec fn state_after(trace: Seq<GamePhase>) -> ControllerState
    decreases trace.len(),
{
    if trace.len() == 0 {
        ControllerState::Idle
    } else {
        next_state(state_after(trace.drop_last()), trace.last())
    }
}

/// What a controller that was idle at first decides on phase `i` of `trace`.
pub open spec fn decision_at(trace: Seq<GamePhase>, i: int) -> Decision {
    decision_on(state_after(trace.take(i)), trace[i])
}

/// Whether phase `i` of `trace` starts the capture and no later phase stops
/// it.
pub open spec fn starts_for_good(trace: Seq<GamePhase>, i: int) -> bool {
    &&& 0 <= i < trace.len()
    &&& is_start_trigger(trace[i])
    &&& forall|j: int| i < j < trace.len() ==> !is_stop_trigger(#[trigger] trace[j])
}

/// Whether `trace` has a phase that starts the capture behind the last of its
/// phases that stop it, or has one and none that stops it.
pub open spec fn started_since_last_stop(trace: Seq<GamePhase>) -> bool {
    exists|i: int| starts_for_good(trace, i)
}

/// Whatever phases the client goes through: the controller is recording
/// exactly if a phase that starts the capture came after the last phase that
/// stops it.
pub proof fn lemma_recording_iff_started_since_last_stop(trace: Seq<GamePhase>)
    ensures
        state_after(trace) == ControllerState::Recording <==> started_since_last_stop(trace),
    decreases trace.len(),
{
    if trace.len() == 0 {
    } else {
        let before = trace.drop_last();
        let phase = trace.last();
        let last = trace.len() - 1;
        lemma_recording_iff_started_since_last_stop(before);
        if is_stop_trigger(phase) {
            assert forall|i: int| !starts_for_good(trace, i) by {
                if 0 <= i < last && is_start_trigger(trace[i]) {
                    assert(is_stop_trigger(trace[last]));
                }
            }
        } else if is_start_trigger(phase) {
            assert(starts_for_good(trace, last));
        } else {
            if started_since_last_stop(before) {
                let i = choose|i: int| starts_for_good(before, i);
                assert(starts_for_good(trace, i)) by {
                    assert forall|j: int| i < j < trace.len() implies !is_stop_trigger(
                        #[trigger] trace[j],
                    ) by {
                        if j < last {
                            assert(trace[j] == before[j]);
                        }
                    }
                }
            }
            if started_since_last_stop(trace) {
                let i = choose|i: int| starts_for_good(trace, i);
                assert(starts_for_good(before, i)) by {
                    assert forall|j: int| i < j < before.len() implies !is_stop_trigger(
                        #[trigger] before[j],
                    ) by {
                        assert(before[j] == trace[j]);
                    }
                }
            }
        }
    }
}

proof fn lemma_stop_between(trace: Seq<GamePhase>, from: int, to: int)
    requires
        0 <= from <= to <= trace.len(),
        state_after(trace.take(from)) == ControllerState::Recording,
        state_after(trace.take(to)) == ControllerState::Idle,
    ensures
        exists|k: int| from <= k < to && #[trigger] decision_at(trace, k) == Decision::Stop,
    decreases to - from,
{
    if from == to {
    } else {
        assert(trace.take(to).drop_last() =~= trace.take(to - 1));
        assert(trace.take(to).last() == trace[to - 1]);
        if state_after(trace.take(to - 1)) == ControllerState::Recording {
            assert(decision_at(trace, to - 1) == Decision::Stop);
        } else {
            lemma_stop_between(trace, from, to - 1);
        }
    }
}

/// The controller holds one recording at most: between two decisions to start
/// the capture there is a decision to stop it.
pub proof fn lemma_no_start_without_stop_between(trace: Seq<GamePhase>, first: int, second: int)
    requires
        0 <= first < second < trace.len(),
        decision_at(trace, first) == Decision::Start,
        decision_at(trace, second) == Decision::Start,
    ensures
        exists|k: int| first < k < second && #[trigger] decision_at(trace, k) == Decision::Stop,
{
    assert(trace.take(first + 1).drop_last() =~= trace.take(first));
    assert(trace.take(first + 1).last() == trace[first]);
    lemma_stop_between(trace, first + 1, second);
}

/// The capture stops only where it runs: before a decision to stop the
/// capture there is a decision to start it.
pub proof fn lemma_no_stop_without_start_before(trace: Seq<GamePhase>, stop: int)
    requires
        0 <= stop < trace.len(),
        decision_at(trace, stop) == Decision::Stop,
    ensures
        exists|k: int| 0 <= k < stop && #[trigger] decision_at(trace, k) == Decision::Start,
{
    lemma_start_before(trace, stop);
}

proof fn lemma_start_before(trace: Seq<GamePhase>, to: int)
    requires
        0 <= to <= trace.len(),
        state_after(trace.take(to)) == ControllerState::Recording,
    ensures
        exists|k: int| 0 <= k < to && #[trigger] decision_at(trace, k) == Decision::Start,
    decreases to,
{
    if to == 0 {
        assert(trace.take(0) =~= Seq::empty());
    } else {
        assert(trace.take(to).drop_last() =~= trace.take(to - 1));
        assert(trace.take(to).last() == trace[to - 1]);
        if state_after(trace.take(to - 1)) == ControllerState::Idle {
            assert(decision_at(trace, to - 1) == Decision::Start);
        } else {
            lemma_start_before(trace, to - 1);
        }
    }
}

impl RecordingController {
    /// The state of the controller: recording where it holds a recording.
    pub open spec fn state(self) -> ControllerState {
        state_of(self@)
    }

    #[verifier::type_invariant]
    spec fn follows_its_history(self) -> bool {
        state_of(view_of(self.session)) == state_after(self.history@)
    }

    /// The phases that the client went through since the controller was made,
    /// or since it was last forced to be idle.
    pub closed spec fn history(self) -> Seq<GamePhase> {
        self.history@
    }

    /// A controller that is idle.
    pub fn new() -> (controller: RecordingController)
        ensures
            controller@ is None,
            controller.state() == ControllerState::Idle,
            controller.history() == Seq::<GamePhase>::empty(),
    {
        RecordingController { session: None, history: Ghost(Seq::empty()) }
    }

    /// Whether a recording runs. One runs exactly if, among the phases that
    /// the client went through, one that starts the capture came after the
    /// last one that stops it.
    pub fn is_recording(&self) -> (recording: bool)
        ensures
            recording == (self.state() == ControllerState::Recording),
            recording == (state_after(self.history()) == ControllerState::Recording),
            recording == started_since_last_stop(self.history()),
    {
        proof {
            use_type_invariant(self);
            lemma_recording_iff_started_since_last_stop(self.history@);
        }
        self.session.is_some()
    }

    /// The recording that runs.
    pub fn session(&self) -> (session: Option<&RecordingSession>)
        ensures
            match session {
                Some(session) => self@ == Some(session@),
                None => self@ is None,
            },
    {
        self.session.as_ref()
    }

    /// Takes one transition and says what is to be done about it. Where the
    /// capture starts, it starts into a new file in `folder`, named after the
    /// moment `now`. The capture never starts while a recording runs.
    pub fn handle(
        &mut self,
        transition: &PhaseTransition,
        folder: &RecordingsFolder,
        now: &Timestamp,
    ) -> (action: Action)
        ensures
            action@ == action_on(old(self)@, transition@, folder@, now@),
            final(self)@ == session_on(old(self)@, transition@, folder@, now@),
            final(self).history() == old(self).history().push(transition.to),
            action@.decision() == decision_on(old(self).state(), transition.to),
            action@.decision() == decision_at(final(self).history(), old(self).history().len() as int),
            final(self).state() == next_state(old(self).state(), transition.to),
    {
        proof {
            use_type_invariant(&*self);
        }
        let ghost history = self.history@.push(transition.to);
        proof {
            assert(history.drop_last() =~= self.history@);
            assert(history.take(self.history@.len() as int) =~= self.history@);
        }
        if self.session.is_none() {
            if starts_capture(transition.to) {
                let path = get_new_filepath(folder, now);
                let (queue_label, game_id) = match &transition.game_data {
                    Some(data) => (
                        label_for(data.queue.id).to_owned(),
                        Some(data.game_id.duplicate()),
                    ),
                    None => (UNKNOWN_LABEL.to_owned(), None),
                };
                let session = RecordingSession {
                    file_path: path.clone(),
                    started_at: *now,
                    queue_label,
                    game_id,
                };
                *self = RecordingController { session: Some(session), history: Ghost(history) };
                Action::Start { path }
            } else {
                self.history = Ghost(history);
                Action::Continue
            }
        } else if stops_capture(transition.to) {
            let completion = if transition.to == GamePhase::FailedToLaunch {
                Completion::Aborted
            } else {
                Completion::Finished
            };
            let mut ended = RecordingController { session: None, history: Ghost(history) };
            core::mem::swap(self, &mut ended);
            let session = ended.session.unwrap();
            Action::Stop { session, completion }
        } else {
            self.history = Ghost(history);
            Action::Continue
        }
    }

    /// Takes the news that the capture engine failed at `stage`. Whatever the
    /// controller held, it is idle afterwards: it never believes in a capture
    /// that may not run.
    pub fn capture_failed(&mut self, stage: CaptureStage) -> (error: CaptureError)
        ensures
            final(self)@ is None,
            final(self).state() == ControllerState::Idle,
            final(self).history() == Seq::<GamePhase>::empty(),
            error.stage == stage,
            view_of(error.abandoned) == old(self)@,
    {
        let mut given_up = RecordingController::new();
        core::mem::swap(self, &mut given_up);
        CaptureError { stage, abandoned: given_up.session }
    }

    /// Ends the monitoring. A recording that runs is stopped first.
    pub fn shut_down(&mut self) -> (action: Action)
        ensures
            final(self)@ is None,
            final(self).state() == ControllerState::Idle,
            final(self).history() == Seq::<GamePhase>::empty(),
            action@ == match old(self)@ {
                Some(session) => ActionView::Stop { session, completion: Completion::Interrupted },
                None => ActionView::Continue,
            },
    {
        let mut ended = RecordingController::new();
        core::mem::swap(self, &mut ended);
        match ended.session {
            Some(session) => Action::Stop { session, completion: Completion::Interrupted },
            None => Action::Continue,
        }
    }
}

/// The empty object, as the monitor hands it on, stops the capture like the
/// phases that end a match.
pub proof fn lemma_empty_object_stops()
    ensures
        is_stop_trigger(phase_of(SubscriptionResponseView::Eog)),
{
}

} // verus!

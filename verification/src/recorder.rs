//! The recorder: the monitor and the controller in one, fed with what each
//! look at the session feed brings.

use crate::clock::{Moment, Timestamp};
use crate::controller::{
    action_on, session_on, started_since_last_stop, Action, ActionView, CaptureError,
    CaptureStage, Completion, RecordingController, RecordingSessionView,
};
use crate::monitor::{phase_of, transition_on, FeedItem, Observation, SessionMonitor};
use crate::recordings::{RecordingsFolder, RecordingsFolderView};
use crate::session_event::{event_in, view_of, GamePhase, SubscriptionResponseView};
use vstd::prelude::*;

verus! {

/// The monitor and the controller, run in step.
pub struct Recorder {
    monitor: SessionMonitor,
    controller: RecordingController,
}

/// What a recorder holds.
pub struct RecorderView {
    /// The last phase seen.
    pub last_phase: Option<GamePhase>,
    /// The recording that runs.
    pub session: Option<RecordingSessionView>,
    /// The phases that the events led to, one after the other, since the
    /// recorder was made or was last forced to record nothing.
    pub history: Seq<GamePhase>,
}

impl View for Recorder {
    type V = RecorderView;

    closed spec fn view(&self) -> RecorderView {
        RecorderView {
            last_phase: self.monitor@,
            session: self.controller@,
            history: self.controller.history(),
        }
    }
}

/// What one step of the recorder brought: what the monitor saw, and what the
/// caller has to do for the controller.
#[derive(Debug, Clone, PartialEq, Eq)]
pub struct Step {
    pub seen: Observation,
    pub action: Action,
}

/// The event that `item` brings, if it brings one.
pub open spec fn event_of(item: FeedItem) -> Option<SubscriptionResponseView> {
    match item {
        FeedItem::Payload(json) => match event_in(json) {
            Ok(event) => Some(event),
            Err(_) => None,
        },
        FeedItem::Unreachable => None,
    }
}

/// The recorder after it has taken `item`. Only an event changes it.
pub open spec fn recorder_after(
    before: RecorderView,
    item: FeedItem,
    folder: RecordingsFolderView,
    now: Moment,
) -> RecorderView {
    match event_of(item) {
        Some(event) => RecorderView {
            last_phase: Some(phase_of(event)),
            session: session_on(
                before.session,
                transition_on(before.last_phase, event),
                folder,
                now,
            ),
            history: before.history.push(phase_of(event)),
        },
        None => before,
    }
}

/// What the recorder asks for when it takes `item`. Without an event it asks
/// for nothing: that the client cannot be reached, or that it sends what is no
/// event, neither starts nor stops a capture.
pub open spec fn action_after(
    before: RecorderView,
    item: FeedItem,
    folder: RecordingsFolderView,
    now: Moment,
) -> ActionView {
    match event_of(item) {
        Some(event) => action_on(
            before.session,
            transition_on(before.last_phase, event),
            folder,
            now,
        ),
        None => ActionView::Continue,
    }
}

impl Recorder {
    /// A recorder that has seen nothing and records nothing.
    pub fn new() -> (recorder: Recorder)
        ensures
            recorder@ == (RecorderView { last_phase: None, session: None, history: Seq::empty() }),
    {
        Recorder { monitor: SessionMonitor::new(), controller: RecordingController::new() }
    }

    /// The last phase seen.
    pub fn last_phase(&self) -> (last: Option<GamePhase>)
        ensures
            last == self@.last_phase,
    {
        self.monitor.last_phase()
    }

    /// The controller, to look at.
    pub fn controller(&self) -> (controller: &RecordingController)
        ensures
            controller@ == self@.session,
            controller.history() == self@.history,
    {
        &self.controller
    }

    /// Whether a recording runs. One runs exactly if, among the phases that
    /// the events led to, one that starts the capture came after the last one
    /// that stops it.
    pub fn is_recording(&self) -> (recording: bool)
        ensures
            recording == self@.session is Some,
            recording == started_since_last_stop(self@.history),
    {
        self.controller.is_recording()
    }

    /// Takes what one look at the feed brought, at the moment `now`, and says
    /// what is to be done.
    pub fn step(&mut self, item: &FeedItem, folder: &RecordingsFolder, now: &Timestamp) -> (step:
        Step)
        ensures
            final(self)@ == recorder_after(old(self)@, *item, folder@, now@),
            step.action@ == action_after(old(self)@, *item, folder@, now@),
            match *item {
                FeedItem::Unreachable => step.seen is NoEvent,
                FeedItem::Payload(json) => match event_in(json) {
                    Ok(event) => step.seen matches Observation::Transition(transition)
                        && transition@ == transition_on(old(self)@.last_phase, event),
                    Err(error) => step.seen == Observation::Discarded(error),
                },
            },
    {
        let seen = self.monitor.receive(item);
        let action = match &seen {
            Observation::Transition(transition) => self.controller.handle(transition, folder, now),
            _ => Action::Continue,
        };
        Step { seen, action }
    }

    /// Takes the news that the capture engine failed at `stage`: the recorder
    /// records nothing afterwards.
    pub fn capture_failed(&mut self, stage: CaptureStage) -> (error: CaptureError)
        ensures
            final(self)@ == (RecorderView {
                last_phase: old(self)@.last_phase,
                session: None,
                history: Seq::empty(),
            }),
            error.stage == stage,
            view_of(error.abandoned) == old(self)@.session,
    {
        self.controller.capture_failed(stage)
    }

    /// Ends the monitoring. A recording that runs is stopped first.
    pub fn shut_down(&mut self) -> (action: Action)
        ensures
            final(self)@ == (RecorderView {
                last_phase: old(self)@.last_phase,
                session: None,
                history: Seq::empty(),
            }),
            action@ == match old(self)@.session {
                Some(session) => ActionView::Stop { session, completion: Completion::Interrupted },
                None => ActionView::Continue,
            },
    {
        self.controller.shut_down()
    }
}

} // verus!

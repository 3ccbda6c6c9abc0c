//! The session monitor: turns what the feed delivers into phase transitions.

use crate::json::Json;
use crate::session_event::{
    decode, event_in, view_of, GameData, GameDataView, GamePhase, ProtocolError,
    SubscriptionResponse, SubscriptionResponseView,
};
use vstd::prelude::*;

verus! {

/// A step of the client from one phase to the next.
#[derive(Debug, Clone, PartialEq, Eq)]
pub struct PhaseTransition {
    /// The phase seen before, if any was.
    pub from: Option<GamePhase>,
    pub to: GamePhase,
    /// The match that the client is in. The empty object comes without it.
    pub game_data: Option<GameData>,
}

/// A transition, with its match data seen as a [`GameDataView`].
pub struct PhaseTransitionView {
    pub from: Option<GamePhase>,
    pub to: GamePhase,
    pub game_data: Option<GameDataView>,
}

impl View for PhaseTransition {
    type V = PhaseTransitionView;

    open spec fn view(&self) -> PhaseTransitionView {
        PhaseTransitionView { from: self.from, to: self.to, game_data: view_of(self.game_data) }
    }
}

/// The phase that `event` leads to. The empty object counts as the end of the
/// game.
pub open spec fn phase_of(event: SubscriptionResponseView) -> GamePhase {
    match event {
        SubscriptionResponseView::Session(data) => data.phase,
        SubscriptionResponseView::Eog => GamePhase::EndOfGame,
    }
}

/// The transition that `event` makes when `last` was the phase seen before.
/// The phase of the event is taken as it comes, whatever `last` is.
pub open spec fn transition_on(
    last: Option<GamePhase>,
    event: SubscriptionResponseView,
) -> PhaseTransitionView {
    PhaseTransitionView {
        from: last,
        to: phase_of(event),
        game_data: match event {
            SubscriptionResponseView::Session(data) => Some(data.game_data),
            SubscriptionResponseView::Eog => None,
        },
    }
}

/// What one look at the feed brought.
#[derive(Debug, PartialEq, Eq)]
pub enum FeedItem {
    /// The client answered with this document.
    Payload(Json),
    /// The client could not be reached.
    Unreachable,
}

/// What the monitor makes of one look at the feed.
#[derive(Debug, Clone, PartialEq, Eq)]
pub enum Observation {
    Transition(PhaseTransition),
    /// The payload was no event. It is dropped, and the feed is read on.
    Discarded(ProtocolError),
    /// Nothing came. That the client cannot be reached says nothing about
    /// the match.
    NoEvent,
}

/// Remembers the last phase seen, and nothing else.
#[derive(Debug, Clone, Copy, PartialEq, Eq)]
pub struct SessionMonitor {
    last_phase: Option<GamePhase>,
}

impl View for SessionMonitor {
    type V = Option<GamePhase>;

    closed spec fn view(&self) -> Option<GamePhase> {
        self.last_phase
    }
}

impl SessionMonitor {
    /// A monitor that has seen no phase yet.
    pub fn new() -> (monitor: SessionMonitor)
        ensures
            monitor@ is None,
    {
        SessionMonitor { last_phase: None }
    }

    /// The last phase seen.
    pub fn last_phase(&self) -> (last: Option<GamePhase>)
        ensures
            last == self@,
    {
        self.last_phase
    }

    /// Takes one event and says what transition it makes.
    pub fn observe(&mut self, event: SubscriptionResponse) -> (transition: PhaseTransition)
        ensures
            transition@ == transition_on(old(self)@, event@),
            final(self)@ == Some(transition.to),
    {
        let from = self.last_phase;
        let transition = match event {
            SubscriptionResponse::Session(data) => PhaseTransition {
                from,
                to: data.phase,
                game_data: Some(data.game_data),
            },
            SubscriptionResponse::Eog => PhaseTransition {
                from,
                to: GamePhase::EndOfGame,
                game_data: None,
            },
        };
        self.last_phase = Some(transition.to);
        transition
    }

    /// Takes what one look at the feed brought. An event makes a transition;
    /// a payload that is no event, and a client that cannot be reached, leave
    /// the monitor as it was.
    pub fn receive(&mut self, item: &FeedItem) -> (seen: Observation)
        ensures
            match *item {
                FeedItem::Unreachable => seen is NoEvent && final(self)@ == old(self)@,
                FeedItem::Payload(json) => match event_in(json) {
                    Ok(event) => {
                        &&& seen matches Observation::Transition(transition)
                        &&& transition@ == transition_on(old(self)@, event)
                        &&& final(self)@ == Some(phase_of(event))
                    },
                    Err(error) => seen == Observation::Discarded(error) && final(self)@ == old(
                        self,
                    )@,
                },
            },
    {
        match item {
            FeedItem::Unreachable => Observation::NoEvent,
            FeedItem::Payload(json) => match decode(json) {
                Ok(event) => Observation::Transition(self.observe(event)),
                Err(error) => Observation::Discarded(error),
            },
        }
    }
}

} // verus!

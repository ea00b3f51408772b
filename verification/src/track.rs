//! The life of a track: idle, running, and then finished or aborted.

use vstd::prelude::*;

verus! {

/// Where a track stands in its life.
#[derive(Clone, Copy, Debug, PartialEq, Eq, Structural)]
pub enum TrackState {
    /// Not started yet.
    Idle,
    /// Playing.
    Running,
    /// Ended in good order.
    Finished,
    /// Ended because its instrument refused a note.
    Aborted,
}

/// What can happen to a track.
#[derive(Clone, Copy, Debug, PartialEq, Eq, Structural)]
pub enum TrackEvent {
    /// Playback starts.
    Started,
    /// The instrument played a note.
    Played,
    /// The instrument refused a note.
    Refused,
    /// Playback ends.
    Ended,
}

impl TrackState {
    /// Whether the track has ended.
    pub open spec fn is_terminal(self) -> bool {
        self is Finished || self is Aborted
    }

    /// The state that follows `self` on `event`. An idle track starts
    /// running; a running track is aborted by a refusal and finished by the
    /// end of playback; nothing else changes the state.
    pub open spec fn spec_next(self, event: TrackEvent) -> TrackState {
        match (self, event) {
            (TrackState::Idle, TrackEvent::Started) => TrackState::Running,
            (TrackState::Running, TrackEvent::Refused) => TrackState::Aborted,
            (TrackState::Running, TrackEvent::Ended) => TrackState::Finished,
            _ => self,
        }
    }

    /// Tells whether the track has ended.
    pub fn ended(self) -> (terminal: bool)
        ensures
            terminal == self.is_terminal(),
    {
        match self {
            TrackState::Finished => true,
            TrackState::Aborted => true,
            _ => false,
        }
    }

    /// Computes the state that follows `self` on `event`.
    pub fn next(self, event: TrackEvent) -> (state: TrackState)
        ensures
            state == self.spec_next(event),
    {
        match (self, event) {
            (TrackState::Idle, TrackEvent::Started) => TrackState::Running,
            (TrackState::Running, TrackEvent::Refused) => TrackState::Aborted,
            (TrackState::Running, TrackEvent::Ended) => TrackState::Finished,
            _ => self,
        }
    }
}

/// A track that has ended stays as it is, whatever happens.
pub proof fn lemma_terminal_is_final(state: TrackState, event: TrackEvent)
    requires
        state.is_terminal(),
    ensures
        state.spec_next(event) == state,
{
}

/// Only the refusal of a note aborts a track, and only a running one.
pub proof fn lemma_aborted_only_by_refusal(state: TrackState, event: TrackEvent)
    requires
        state.spec_next(event) is Aborted,
        !(state is Aborted),
    ensures
        state is Running,
        event is Refused,
{
}

/// A track ends only from the running state: an idle one never ends at
/// once.
pub proof fn lemma_ends_only_from_running(state: TrackState, event: TrackEvent)
    requires
        state.spec_next(event).is_terminal(),
        !state.is_terminal(),
    ensures
        state is Running,
{
}

} // verus!

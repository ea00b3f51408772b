//! A track: one timeline of notes, one instrument to play them on, and the
//! state of its playback.

use vstd::prelude::*;
use crate::instrument::{Attempt, InstrumentWrapper, PlayableInstrument};
use crate::note::RawNote;
use crate::timeline::{handed_over, SweepReport, Timeline, TimelineModel};
use crate::timing::{bar_duration_ms, offset_ms, BeatValue, TimingError};
use crate::track::{TrackEvent, TrackState};

verus! {

/// What a track is, apart from its instrument.
pub struct TrackModel {
    /// Its notes and the length of its bar.
    pub timeline: TimelineModel,
    /// Where it stands in its life.
    pub state: TrackState,
}

/// A track: a timeline, an instrument and the state of playback.
pub struct PartialSequencer<T: PlayableInstrument> {
    instrument: InstrumentWrapper<T>,
    timeline: Timeline,
    state: TrackState,
}

impl<T: PlayableInstrument> View for PartialSequencer<T> {
    type V = TrackModel;

    closed spec fn view(&self) -> TrackModel {
        TrackModel { timeline: self.timeline@, state: self.state }
    }
}

impl<T: PlayableInstrument> PartialSequencer<T> {
    /// The instrument of the track.
    pub closed spec fn instrument(self) -> InstrumentWrapper<T> {
        self.instrument
    }

    /// Makes an idle track with an empty timeline, for a tempo given in
    /// thousandths of a beat per minute. A tempo of zero is refused.
    pub fn new(bpm: u64, instrument: T) -> (result: Result<PartialSequencer<T>, TimingError>)
        ensures
            match result {
                Ok(track) => {
                    &&& bpm > 0
                    &&& track@.timeline.bar_ms == bar_duration_ms(bpm as nat)
                    &&& track@.timeline.notes == Map::<u64, RawNote>::empty()
                    &&& track@.state is Idle
                    &&& track.instrument()@ == instrument
                    &&& track.instrument().history() == Seq::<Attempt>::empty()
                },
                Err(e) => bpm == 0 && e == TimingError::InvalidTempo,
            },
    {
        let beat = match BeatValue::from_bpm(bpm) {
            Ok(beat) => beat,
            Err(e) => {
                return Err(e);
            },
        };
        match Timeline::new(beat) {
            Ok(timeline) => Ok(
                PartialSequencer {
                    instrument: InstrumentWrapper::new(instrument),
                    timeline,
                    state: TrackState::Idle,
                },
            ),
            Err(e) => Err(e),
        }
    }

    /// The length of the track's bar.
    pub fn local_beat_builder(&self) -> (beat: BeatValue)
        ensures
            beat.bar_ms() == Some(self@.timeline.bar_ms as nat),
    {
        self.timeline.beat()
    }

    /// The timeline of the track.
    pub fn timeline(&self) -> (timeline: &Timeline)
        ensures
            timeline@ == self@.timeline,
    {
        &self.timeline
    }

    /// Where the track stands in its life.
    pub fn state(&self) -> (state: TrackState)
        ensures
            state == self@.state,
    {
        self.state
    }

    /// Lends out the instrument of the track.
    pub fn internal_instrument(&mut self) -> (instrument: &mut InstrumentWrapper<T>)
        ensures
            *instrument == old(self).instrument(),
            final(self).instrument() == *final(instrument),
            final(self)@ == old(self)@,
    {
        &mut self.instrument
    }

    /// Puts `note` on the timeline at the `bar`-th part of the bar divided
    /// into `bar_divisions` equal parts, in place of any note that stood
    /// there. Where that offset cannot be computed, the track stays as it
    /// is.
    pub fn push_time_to_note(&mut self, bar: u64, bar_divisions: u64, note: RawNote) -> (result:
        Result<(), TimingError>)
        ensures
            match offset_ms(
                Some(old(self)@.timeline.bar_ms as nat),
                bar_divisions as nat,
                bar as nat,
            ) {
                Ok(offset) => result is Ok && final(self)@.timeline == old(
                    self,
                )@.timeline.scheduled(offset, note),
                Err(e) => result == Err::<(), TimingError>(e) && final(self)@.timeline == old(
                    self,
                )@.timeline,
            },
            final(self)@.state == old(self)@.state,
            final(self).instrument() == old(self).instrument(),
    {
        match self.timeline.schedule(bar, bar_divisions, note) {
            Ok(_) => Ok(()),
            Err(e) => Err(e),
        }
    }

    /// Sweeps the bar once and plays each note of the timeline on the
    /// instrument when the sweep reaches its offset. An idle track starts
    /// running; a refusal of the instrument ends the sweep and aborts the
    /// track. A track that has ended plays nothing. The timeline stays as it
    /// is.
    #[allow(non_snake_case)]
    pub fn play_sequence_DEBUG(&mut self) -> (report: SweepReport)
        ensures
            final(self)@.timeline == old(self)@.timeline,
            final(self)@.state == old(self)@.state.spec_next(TrackEvent::Started).spec_next(
                if report.refused {
                    TrackEvent::Refused
                } else {
                    TrackEvent::Played
                },
            ),
            old(self)@.state.is_terminal() ==> report.dispatched@ == Seq::<u64>::empty()
                && !report.refused,
            !old(self)@.state.is_terminal() ==> {
                &&& report.dispatched@.len() <= old(self)@.timeline.due().len()
                &&& report.dispatched@ == old(self)@.timeline.due().take(
                    report.dispatched@.len() as int,
                )
                &&& !report.refused ==> report.dispatched@ == old(self)@.timeline.due()
                &&& report.refused ==> report.dispatched@.len() > 0
            },
            forall|i: int, j: int|
                0 <= i < j < report.dispatched@.len() ==> report.dispatched@[i]
                    < report.dispatched@[j],
            forall|i: int|
                0 <= i < report.dispatched@.len() ==> old(self)@.timeline.notes.contains_key(
                    #[trigger] report.dispatched@[i],
                ) && report.dispatched@[i] < old(self)@.timeline.bar_ms,
            !old(self)@.state.is_terminal() ==> forall|offset: u64|
                old(self)@.timeline.notes.contains_key(offset) && offset < old(
                    self,
                )@.timeline.bar_ms && (report.refused ==> offset <= report.dispatched@.last())
                    ==> #[trigger] report.dispatched@.contains(offset),
            final(self).instrument().history() == old(self).instrument().history() + handed_over(
                old(self)@.timeline.notes,
                report.dispatched@,
                report.refused,
            ),
    {
        if self.state.ended() {
            proof {
                assert(self.instrument().history() + handed_over(
                    self@.timeline.notes,
                    Seq::empty(),
                    false,
                ) =~= self.instrument().history());
            }
            return SweepReport { dispatched: Vec::new(), refused: false };
        }
        self.state = self.state.next(TrackEvent::Started);
        let report = self.timeline.sweep(&mut self.instrument);
        self.state = self.state.next(
            if report.refused {
                TrackEvent::Refused
            } else {
                TrackEvent::Played
            },
        );
        report
    }

    /// Ends playback: a running track is finished; any other stays as it
    /// is.
    pub fn finish(&mut self)
        ensures
            final(self)@.timeline == old(self)@.timeline,
            final(self)@.state == old(self)@.state.spec_next(TrackEvent::Ended),
            final(self).instrument() == old(self).instrument(),
    {
        self.state = self.state.next(TrackEvent::Ended);
    }
}

} // verus!

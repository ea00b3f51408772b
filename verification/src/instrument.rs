//! Instruments: what can play a note, and the wrapper through which a track
//! plays on one.

use vstd::prelude::*;
use crate::note::RawNote;

verus! {

/// The signal of an instrument that it does not play a note.
#[derive(Clone, Copy, Debug, PartialEq, Eq, Structural)]
pub struct UnsupportedNote;

/// An instrument that plays notes.
pub trait PlayableInstrument {
    /// Plays `note` and returns when it has sounded for about its length, or
    /// signals that the instrument does not play it.
    fn play(&mut self, note: &RawNote) -> Result<(), UnsupportedNote>;
}

/// Whether an instrument played the note, given what it answered.
pub fn was_played(outcome: &Result<(), UnsupportedNote>) -> (played: bool)
    ensures
        played == (*outcome is Ok),
{
    match outcome {
        Ok(_) => true,
        Err(_) => false,
    }
}

/// A note that was handed to an instrument, and whether the instrument
/// played it.
pub struct Attempt {
    pub note: RawNote,
    pub played: bool,
}

/// An instrument, with a strict and a lenient way to play on it. The wrapper
/// keeps account of the notes that were handed to the instrument through
/// it.
pub struct InstrumentWrapper<T: PlayableInstrument> {
    internal_instrument: T,
    attempts: Ghost<Seq<Attempt>>,
}

impl<T: PlayableInstrument> View for InstrumentWrapper<T> {
    type V = T;

    closed spec fn view(&self) -> T {
        self.internal_instrument
    }
}

impl<T: PlayableInstrument> InstrumentWrapper<T> {
    /// The notes handed to the instrument through this wrapper so far, in
    /// order, each with what came of it.
    pub closed spec fn history(self) -> Seq<Attempt> {
        self.attempts@
    }

    /// Wraps `instrument`.
    pub fn new(instrument: T) -> (wrapper: InstrumentWrapper<T>)
        ensures
            wrapper@ == instrument,
            wrapper.history() == Seq::<Attempt>::empty(),
    {
        InstrumentWrapper { internal_instrument: instrument, attempts: Ghost(Seq::empty()) }
    }

    /// Hands `note` to the instrument and hands on its answer: a refusal is
    /// for the caller to act on.
    pub fn play(&mut self, note: &RawNote) -> (outcome: Result<(), UnsupportedNote>)
        ensures
            final(self).history() == old(self).history().push(
                Attempt { note: *note, played: outcome is Ok },
            ),
    {
        let outcome = self.internal_instrument.play(note);
        self.attempts = Ghost(self.attempts@.push(Attempt { note: *note, played: outcome is Ok }));
        outcome
    }

    /// Hands `note` to the instrument and tells whether it was played.
    pub fn safe_play(&mut self, note: &RawNote) -> (played: bool)
        ensures
            final(self).history() == old(self).history().push(Attempt { note: *note, played }),
    {
        let outcome = self.internal_instrument.play(note);
        let played = was_played(&outcome);
        self.attempts = Ghost(self.attempts@.push(Attempt { note: *note, played }));
        played
    }

    /// Lends out the instrument.
    pub fn reveal_internal_instrument(&mut self) -> (instrument: &mut T)
        ensures
            *instrument == old(self)@,
            final(self)@ == *final(instrument),
            final(self).history() == old(self).history(),
    {
        &mut self.internal_instrument
    }
}

} // verus!

//! Notes: the fully specified note, the partially specified note, and the
//! builder that turns the second into the first.
//!
//! Frequencies are in hundredths of a hertz, offsets in thousandths of a
//! beat, amplitudes in thousandths of full scale and lengths in
//! milliseconds.

use vstd::prelude::*;
use crate::notation::{build_sequence, sequence_of};
use crate::pitch::{herz, primitives_to_herz, Register, Semitone};

verus! {

/// Offset given to a note that was built without one.
pub const DEFAULT_OFFSET: i32 = 0;

/// Amplitude given to a note that was built without one: full scale.
pub const DEFAULT_AMPLITUDE: u32 = 1000;

/// Length, in milliseconds, given to a note that was built without one.
pub const DEFAULT_LENGTH: u32 = 1000;

/// Amplitude of the notes of a written sequence.
pub const SEQUENCE_AMPLITUDE: u32 = 15_000;

/// Pitch class of a fresh builder, and of a note built without one.
pub open spec fn default_semitone() -> Semitone {
    Semitone::C
}

/// Register that stands in wherever none has been chosen.
pub open spec fn reference_register() -> Register {
    Register::C4
}

/// The note that stands for pitch class `p` in a written sequence whose
/// notes last `length` milliseconds.
pub open spec fn sequence_note(p: Semitone, length: u32) -> NoteModel {
    NoteModel {
        semitone: p,
        register: Register::C3,
        offset: DEFAULT_OFFSET,
        amplitude: SEQUENCE_AMPLITUDE,
        length,
    }
}

/// What a note is: the attributes that can be chosen freely. The frequency
/// is no part of it, because the pitch class and the register determine it.
pub struct NoteModel {
    /// Pitch class.
    pub semitone: Semitone,
    /// Octave band.
    pub register: Register,
    /// Offset, in thousandths of a beat.
    pub offset: i32,
    /// Amplitude, in thousandths of full scale.
    pub amplitude: u32,
    /// Length, in milliseconds.
    pub length: u32,
}

impl NoteModel {
    /// Frequency of the note, in hundredths of a hertz.
    pub open spec fn frequency(self) -> nat {
        herz(self.semitone, self.register)
    }
}

/// A fully specified note. Its stored frequency always equals the frequency
/// of its pitch class in its register.
#[derive(Clone, Copy, Debug, PartialEq, Eq, Structural)]
pub struct RawNote {
    semitone: Semitone,
    pitch_hz: u32,
    register: Register,
    offset: i32,
    amplitude: u32,
    length: u32,
}

impl View for RawNote {
    type V = NoteModel;

    closed spec fn view(&self) -> NoteModel {
        NoteModel {
            semitone: self.semitone,
            register: self.register,
            offset: self.offset,
            amplitude: self.amplitude,
            length: self.length,
        }
    }
}

impl RawNote {
    #[verifier::type_invariant]
    spec fn frequency_is_derived(self) -> bool {
        self.pitch_hz == herz(self.semitone, self.register)
    }

    /// Makes the note with the given attributes; the frequency follows from
    /// `p` and `r`.
    pub fn new(p: Semitone, r: Register, o: i32, a: u32, l: u32) -> (note: RawNote)
        ensures
            note@ == (NoteModel { semitone: p, register: r, offset: o, amplitude: a, length: l }),
    {
        RawNote {
            semitone: p,
            pitch_hz: primitives_to_herz(p, r),
            register: r,
            offset: o,
            amplitude: a,
            length: l,
        }
    }

    /// Pitch class of the note.
    pub fn semitone(&self) -> (p: Semitone)
        ensures
            p == self@.semitone,
    {
        self.semitone
    }

    /// Frequency of the note, in hundredths of a hertz.
    pub fn pitch_hz(&self) -> (hz: u32)
        ensures
            hz == self@.frequency(),
    {
        proof {
            use_type_invariant(self);
        }
        self.pitch_hz
    }

    /// Register of the note.
    pub fn register(&self) -> (r: Register)
        ensures
            r == self@.register,
    {
        self.register
    }

    /// Offset of the note, in thousandths of a beat.
    pub fn offset(&self) -> (o: i32)
        ensures
            o == self@.offset,
    {
        self.offset
    }

    /// Amplitude of the note, in thousandths of full scale.
    pub fn amplitude(&self) -> (a: u32)
        ensures
            a == self@.amplitude,
    {
        self.amplitude
    }

    /// Length of the note, in milliseconds.
    pub fn length(&self) -> (l: u32)
        ensures
            l == self@.length,
    {
        self.length
    }
}

/// A note of which any attribute may still be missing.
#[derive(Clone, Copy, Debug, PartialEq, Eq, Structural)]
pub struct IncompleteNote {
    /// Pitch class.
    pub semitone: Option<Semitone>,
    /// Frequency, in hundredths of a hertz.
    pub pitch_hz: Option<u32>,
    /// Octave band.
    pub register: Option<Register>,
    /// Offset, in thousandths of a beat.
    pub offset: Option<i32>,
    /// Amplitude, in thousandths of full scale.
    pub amplitude: Option<u32>,
    /// Length, in milliseconds.
    pub length: Option<u32>,
}

/// Frequency that a partially specified note carries: that of its pitch
/// class in its register, or in the reference register while none is
/// chosen; none without a pitch class.
pub open spec fn derived_frequency(semitone: Option<Semitone>, register: Option<Register>) -> Option<
    u32,
> {
    match semitone {
        Some(p) => Some(herz(p, register.unwrap_or(reference_register())) as u32),
        None => None,
    }
}

/// Whether `o` holds a value.
pub fn has_value<T>(o: Option<T>) -> (b: bool)
    ensures
        b == (o is Some),
{
    match o {
        Some(_) => true,
        None => false,
    }
}

impl IncompleteNote {
    /// The note with no attribute set.
    pub open spec fn empty() -> IncompleteNote {
        IncompleteNote {
            semitone: None,
            pitch_hz: None,
            register: None,
            offset: None,
            amplitude: None,
            length: None,
        }
    }

    /// Whether the frequency is the one that pitch class and register give.
    pub open spec fn is_consistent(self) -> bool {
        self.pitch_hz == derived_frequency(self.semitone, self.register)
    }

    /// Whether every attribute is set.
    pub open spec fn is_complete(self) -> bool {
        &&& self.semitone is Some
        &&& self.pitch_hz is Some
        &&& self.register is Some
        &&& self.offset is Some
        &&& self.amplitude is Some
        &&& self.length is Some
    }

    /// The same attributes, with the frequency that pitch class and register
    /// give.
    pub open spec fn rederived(self) -> IncompleteNote {
        IncompleteNote { pitch_hz: derived_frequency(self.semitone, self.register), ..self }
    }

    /// The note that the attributes describe, if every attribute is set.
    pub open spec fn completed(self) -> Option<NoteModel> {
        if self.is_complete() {
            Some(
                NoteModel {
                    semitone: self.semitone->0,
                    register: self.register->0,
                    offset: self.offset->0,
                    amplitude: self.amplitude->0,
                    length: self.length->0,
                },
            )
        } else {
            None
        }
    }

    /// The note that the attributes describe, each missing one replaced by
    /// its default.
    pub open spec fn with_defaults(self) -> NoteModel {
        NoteModel {
            semitone: self.semitone.unwrap_or(default_semitone()),
            register: self.register.unwrap_or(reference_register()),
            offset: self.offset.unwrap_or(DEFAULT_OFFSET),
            amplitude: self.amplitude.unwrap_or(DEFAULT_AMPLITUDE),
            length: self.length.unwrap_or(DEFAULT_LENGTH),
        }
    }

    /// Makes the note with no attribute set.
    pub fn new() -> (note: IncompleteNote)
        ensures
            note == IncompleteNote::empty(),
    {
        IncompleteNote {
            semitone: None,
            pitch_hz: None,
            register: None,
            offset: None,
            amplitude: None,
            length: None,
        }
    }

    /// Makes a note from a register, an amplitude, a length and a pitch
    /// class, each of which may be missing. The offset is left unset.
    pub fn from_options(
        r: Option<Register>,
        a: Option<u32>,
        l: Option<u32>,
        p: Option<Semitone>,
    ) -> (note: IncompleteNote)
        ensures
            note == (IncompleteNote {
                semitone: p,
                pitch_hz: derived_frequency(p, r),
                register: r,
                offset: None,
                amplitude: a,
                length: l,
            }),
    {
        let pitch_hz = match p {
            Some(y) => Some(primitives_to_herz(y, r.unwrap_or(Register::C4))),
            None => None,
        };
        IncompleteNote { semitone: p, pitch_hz, register: r, offset: None, amplitude: a, length: l }
    }

    /// Turns the note into a fully specified one, if every attribute is set.
    pub fn to_raw(&self) -> (raw: Option<RawNote>)
        ensures
            match raw {
                Some(note) => self.completed() == Some(note@),
                None => self.completed() is None,
            },
    {
        if has_value(self.semitone) && has_value(self.pitch_hz) && has_value(self.register)
            && has_value(self.offset) && has_value(self.amplitude) && has_value(self.length) {
            Some(
                RawNote::new(
                    self.semitone.unwrap(),
                    self.register.unwrap(),
                    self.offset.unwrap(),
                    self.amplitude.unwrap(),
                    self.length.unwrap(),
                ),
            )
        } else {
            None
        }
    }

    /// Starts a builder that holds the attributes of this note.
    pub fn to_note_builder(self) -> (builder: NoteBuilder)
        ensures
            builder@ == self.rederived(),
    {
        let mut nb = NoteBuilder::new();
        nb.clear();
        let nb = match self.semitone {
            Some(p) => nb.semitone(p),
            None => nb,
        };
        let nb = match self.register {
            Some(reg) => nb.register(reg),
            None => nb,
        };
        let nb = match self.offset {
            Some(off) => nb.offset(off),
            None => nb,
        };
        let nb = match self.amplitude {
            Some(amp) => nb.amplitude(amp),
            None => nb,
        };
        let nb = match self.length {
            Some(len) => nb.length(len),
            None => nb,
        };
        nb
    }

    /// Turns the note into a fully specified one, each missing attribute
    /// replaced by its default.
    pub fn to_default(self) -> (note: RawNote)
        ensures
            note@ == self.with_defaults(),
    {
        let p = self.semitone.unwrap_or(Semitone::C);
        let r = self.register.unwrap_or(Register::C4);
        let o: i32 = self.offset.unwrap_or(DEFAULT_OFFSET);
        let a: u32 = self.amplitude.unwrap_or(DEFAULT_AMPLITUDE);
        let l: u32 = self.length.unwrap_or(DEFAULT_LENGTH);
        RawNote::new(p, r, o, a, l)
    }
}

/// What building a note gives: the note, or what was staged where that is
/// not enough.
pub type NoteResult = Result<RawNote, IncompleteNote>;

/// Stages the attributes of a note one by one and builds the note from them.
/// The staged frequency always follows the staged pitch class and register.
#[derive(Clone, Copy, Debug)]
pub struct NoteBuilder {
    internal_note: IncompleteNote,
}

impl View for NoteBuilder {
    type V = IncompleteNote;

    closed spec fn view(&self) -> IncompleteNote {
        self.internal_note
    }
}

impl NoteBuilder {
    #[verifier::type_invariant]
    spec fn frequency_is_current(self) -> bool {
        self.internal_note.is_consistent()
    }

    /// What a fresh builder holds: the default pitch class, its frequency in
    /// the reference register, and nothing else.
    pub open spec fn fresh() -> IncompleteNote {
        IncompleteNote {
            semitone: Some(default_semitone()),
            pitch_hz: derived_frequency(Some(default_semitone()), None),
            register: None,
            offset: None,
            amplitude: None,
            length: None,
        }
    }

    /// Makes a fresh builder.
    pub fn new() -> (builder: NoteBuilder)
        ensures
            builder@ == NoteBuilder::fresh(),
    {
        NoteBuilder {
            internal_note: IncompleteNote {
                semitone: Some(Semitone::C),
                pitch_hz: Some(primitives_to_herz(Semitone::C, Register::C4)),
                register: None,
                offset: None,
                amplitude: None,
                length: None,
            },
        }
    }

    /// Forgets every staged attribute, the pitch class included.
    pub fn clear(&mut self)
        ensures
            final(self)@ == IncompleteNote::empty(),
    {
        self.internal_note = IncompleteNote::new();
    }

    /// Stages the pitch class `p` in place.
    pub fn set_note(&mut self, p: Semitone)
        ensures
            final(self)@ == (IncompleteNote { semitone: Some(p), ..old(self)@ }).rederived(),
    {
        proof {
            use_type_invariant(&*self);
        }
        *self = self.semitone(p);
    }

    /// Stages the pitch class.
    pub fn semitone(self, semitone: Semitone) -> (builder: NoteBuilder)
        ensures
            builder@ == (IncompleteNote { semitone: Some(semitone), ..self@ }).rederived(),
    {
        let reg = self.internal_note.register.unwrap_or(Register::C4);
        NoteBuilder {
            internal_note: IncompleteNote {
                semitone: Some(semitone),
                pitch_hz: Some(primitives_to_herz(semitone, reg)),
                ..self.internal_note
            },
        }
    }

    /// Stages the register.
    pub fn register(self, register: Register) -> (builder: NoteBuilder)
        ensures
            builder@ == (IncompleteNote { register: Some(register), ..self@ }).rederived(),
    {
        let pitch_hz = match self.internal_note.semitone {
            Some(p) => Some(primitives_to_herz(p, register)),
            None => None,
        };
        NoteBuilder {
            internal_note: IncompleteNote {
                pitch_hz,
                register: Some(register),
                ..self.internal_note
            },
        }
    }

    /// Stages the offset, in thousandths of a beat.
    pub fn offset(self, offset: i32) -> (builder: NoteBuilder)
        ensures
            builder@ == (IncompleteNote { offset: Some(offset), ..self@ }),
    {
        proof {
            use_type_invariant(&self);
        }
        NoteBuilder { internal_note: IncompleteNote { offset: Some(offset), ..self.internal_note } }
    }

    /// Stages the amplitude, in thousandths of full scale.
    pub fn amplitude(self, amplitude: u32) -> (builder: NoteBuilder)
        ensures
            builder@ == (IncompleteNote { amplitude: Some(amplitude), ..self@ }),
    {
        proof {
            use_type_invariant(&self);
        }
        NoteBuilder { internal_note: IncompleteNote { amplitude: Some(amplitude), ..self.internal_note } }
    }

    /// Stages the length, in milliseconds.
    pub fn length(self, length: u32) -> (builder: NoteBuilder)
        ensures
            builder@ == (IncompleteNote { length: Some(length), ..self@ }),
    {
        proof {
            use_type_invariant(&self);
        }
        NoteBuilder { internal_note: IncompleteNote { length: Some(length), ..self.internal_note } }
    }

    /// Builds the notes of a written sequence, each as long as the staged
    /// length. Without a staged length it hands back what is staged.
    #[allow(non_snake_case)]
    pub fn build_sequence_DEBUG(&self, arg: &str) -> (result: Result<Vec<RawNote>, IncompleteNote>)
        ensures
            match result {
                Ok(notes) => {
                    &&& self@.length is Some
                    &&& notes@.len() == sequence_of(arg@).len()
                    &&& forall|i: int|
                        0 <= i < notes@.len() ==> (#[trigger] notes@[i])@ == sequence_note(
                            sequence_of(arg@)[i],
                            self@.length->0,
                        )
                },
                Err(partial) => self@.length is None && partial == self@,
            },
    {
        let length: u32 = match self.internal_note.length {
            Some(l) => l,
            None => {
                return Err(self.internal_note);
            },
        };
        let pitches = build_sequence(arg);
        let mut ret_val: Vec<RawNote> = Vec::new();
        let mut i: usize = 0;
        while i < pitches.len()
            invariant
                i <= pitches@.len(),
                ret_val@.len() == i,
                forall|j: int|
                    0 <= j < i ==> (#[trigger] ret_val@[j])@ == sequence_note(pitches@[j], length),
            decreases pitches@.len() - i,
        {
            ret_val.push(
                RawNote::new(pitches[i], Register::C3, DEFAULT_OFFSET, SEQUENCE_AMPLITUDE, length),
            );
            i = i + 1;
        }
        Ok(ret_val)
    }

    /// Builds the note if every attribute is staged; otherwise hands back
    /// what is staged, with the frequency that the staged pitch class gives.
    pub fn build(&self) -> (result: NoteResult)
        ensures
            match result {
                Ok(note) => self@.completed() == Some(note@),
                Err(partial) => {
                    &&& self@.completed() is None
                    &&& partial == self@
                    &&& partial.is_consistent()
                },
            },
    {
        proof {
            use_type_invariant(self);
        }
        match self.internal_note.to_raw() {
            Some(note) => Ok(note),
            None => Err(self.internal_note),
        }
    }

    /// Builds the note, each attribute that is not staged replaced by its
    /// default.
    pub fn safe_build(&self) -> (note: RawNote)
        ensures
            note@ == self@.with_defaults(),
    {
        self.internal_note.to_default()
    }
}

/// Where every attribute is set nothing is left to default: building with
/// defaults gives the note that building strictly gives.
pub proof fn lemma_defaults_keep_what_is_set(partial: IncompleteNote)
    requires
        partial.is_complete(),
    ensures
        partial.completed() == Some(partial.with_defaults()),
{
}

/// Building with defaults is a function of what is staged: the notes that
/// two such builds of one builder give agree in every attribute, and so in
/// frequency.
pub proof fn lemma_safe_build_is_idempotent(builder: NoteBuilder, first: RawNote, second: RawNote)
    requires
        first@ == builder@.with_defaults(),
        second@ == builder@.with_defaults(),
    ensures
        first@ == second@,
        first@.frequency() == second@.frequency(),
{
}

/// A note that carries the frequency of its pitch class is left as it is
/// when the frequency is derived again. So what a builder hands back when it
/// cannot build starts a builder that stages the same.
pub proof fn lemma_rederived_keeps_consistent(partial: IncompleteNote)
    requires
        partial.is_consistent(),
    ensures
        partial.rederived() == partial,
{
}

/// The frequency that a partially specified note carries fits the
/// frequency field, whatever its pitch class and register.
pub proof fn lemma_frequency_fits(p: Semitone, r: Register)
    ensures
        herz(p, r) <= 98_784,
        derived_frequency(Some(p), Some(r)) == Some(herz(p, r) as u32),
{
}

} // verus!

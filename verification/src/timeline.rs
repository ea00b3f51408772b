//! The timeline of a track: its notes, each at its offset in milliseconds
//! from the start of the bar.

use std::collections::HashMap;
use vstd::prelude::*;
use crate::instrument::{was_played, Attempt, InstrumentWrapper, PlayableInstrument};
use crate::note::RawNote;
use crate::timing::{offset_ms, BeatValue, TimingError};

verus! {

/// The offsets below `bar` at which `notes` holds a note, in the order in
/// which a sweep of the ticks from zero upwards meets them.
pub open spec fn due_offsets(notes: Map<u64, RawNote>, bar: u64) -> Seq<u64>
    decreases bar,
{
    if bar == 0 {
        seq![]
    } else {
        let tick = (bar - 1) as u64;
        if notes.contains_key(tick) {
            due_offsets(notes, tick).push(tick)
        } else {
            due_offsets(notes, tick)
        }
    }
}

/// The due offsets are the offsets of the timeline below the bar's length.
pub proof fn lemma_due_offsets_members(notes: Map<u64, RawNote>, bar: u64)
    ensures
        forall|offset: u64| #[trigger]
            due_offsets(notes, bar).contains(offset) <==> notes.contains_key(offset) && offset
                < bar,
    decreases bar,
{
    let due = due_offsets(notes, bar);
    if bar == 0 {
        assert forall|offset: u64| !(#[trigger] due.contains(offset)) by {}
    } else {
        let tick = (bar - 1) as u64;
        let earlier = due_offsets(notes, tick);
        lemma_due_offsets_members(notes, tick);
        assert forall|offset: u64| #[trigger]
            due.contains(offset) <==> notes.contains_key(offset) && offset < bar by {
            if due.contains(offset) {
                let i = choose|i: int| 0 <= i < due.len() && due[i] == offset;
                if i < earlier.len() {
                    assert(earlier[i] == offset);
                    assert(earlier.contains(offset));
                }
            }
            if notes.contains_key(offset) && offset < bar {
                if offset == tick {
                    assert(due[earlier.len() as int] == offset);
                } else {
                    assert(earlier.contains(offset));
                    let i = choose|i: int| 0 <= i < earlier.len() && earlier[i] == offset;
                    assert(due[i] == offset);
                }
            }
        }
    }
}

/// The due offsets stand in ascending order, so none occurs twice.
pub proof fn lemma_due_offsets_ascending(notes: Map<u64, RawNote>, bar: u64)
    ensures
        forall|i: int, j: int|
            0 <= i < j < due_offsets(notes, bar).len() ==> due_offsets(notes, bar)[i]
                < due_offsets(notes, bar)[j],
    decreases bar,
{
    let due = due_offsets(notes, bar);
    if bar > 0 {
        let tick = (bar - 1) as u64;
        let earlier = due_offsets(notes, tick);
        lemma_due_offsets_ascending(notes, tick);
        lemma_due_offsets_members(notes, tick);
        assert forall|i: int, j: int| 0 <= i < j < due.len() implies due[i] < due[j] by {
            assert(due[i] == earlier[i]);
            assert(earlier.contains(earlier[i]));
            if j < earlier.len() {
                assert(due[j] == earlier[j]);
            }
        }
    }
}

/// What is due within a shorter bar is the start of what is due within a
/// longer one.
pub proof fn lemma_due_offsets_prefix(notes: Map<u64, RawNote>, shorter: u64, longer: u64)
    requires
        shorter <= longer,
    ensures
        due_offsets(notes, shorter).len() <= due_offsets(notes, longer).len(),
        due_offsets(notes, shorter) == due_offsets(notes, longer).take(
            due_offsets(notes, shorter).len() as int,
        ),
    decreases longer,
{
    if shorter < longer {
        let tick = (longer - 1) as u64;
        lemma_due_offsets_prefix(notes, shorter, tick);
        let len = due_offsets(notes, shorter).len() as int;
        assert(due_offsets(notes, longer).take(len) =~= due_offsets(notes, tick).take(len));
    } else {
        let due = due_offsets(notes, shorter);
        assert(due.take(due.len() as int) =~= due);
    }
}

/// What a sweep has met when it has passed the first `swept` ticks of a bar:
/// the start of what is due in the bar, which is the offset of every note
/// below `swept` and of no other, in ascending order.
proof fn lemma_swept(notes: Map<u64, RawNote>, swept: u64, bar: u64)
    requires
        swept <= bar,
    ensures
        due_offsets(notes, swept).len() <= due_offsets(notes, bar).len(),
        due_offsets(notes, swept) == due_offsets(notes, bar).take(
            due_offsets(notes, swept).len() as int,
        ),
        forall|offset: u64|
            notes.contains_key(offset) && offset < swept ==> #[trigger] due_offsets(
                notes,
                swept,
            ).contains(offset),
        forall|i: int|
            0 <= i < due_offsets(notes, swept).len() ==> notes.contains_key(
                #[trigger] due_offsets(notes, swept)[i],
            ) && due_offsets(notes, swept)[i] < bar,
        forall|i: int, j: int|
            0 <= i < j < due_offsets(notes, swept).len() ==> due_offsets(notes, swept)[i]
                < due_offsets(notes, swept)[j],
{
    let met = due_offsets(notes, swept);
    lemma_due_offsets_prefix(notes, swept, bar);
    lemma_due_offsets_members(notes, swept);
    lemma_due_offsets_ascending(notes, swept);
    assert forall|i: int| 0 <= i < met.len() implies notes.contains_key(#[trigger] met[i])
        && met[i] < bar by {
        assert(met.contains(met[i]));
    }
}

/// Whether `offset` stands in `offsets` at one place and no other.
pub open spec fn occurs_once(offsets: Seq<u64>, offset: u64) -> bool {
    exists|i: int|
        0 <= i < offsets.len() && #[trigger] offsets[i] == offset && forall|j: int|
            0 <= j < offsets.len() && #[trigger] offsets[j] == offset ==> j == i
}

/// What an instrument is handed when the notes at `offsets` are played in
/// turn: each of them, all played, but for the last if it was refused.
pub open spec fn handed_over(notes: Map<u64, RawNote>, offsets: Seq<u64>, refused: bool) -> Seq<
    Attempt,
> {
    Seq::new(
        offsets.len(),
        |i: int| Attempt { note: notes[offsets[i]], played: !(refused && i == offsets.len() - 1) },
    )
}

/// What a timeline is.
pub struct TimelineModel {
    /// Length of the bar, in milliseconds.
    pub bar_ms: u64,
    /// The notes, each at its offset from the start of the bar.
    pub notes: Map<u64, RawNote>,
}

impl TimelineModel {
    /// The offsets at which one sweep of the bar plays a note, in order.
    pub open spec fn due(self) -> Seq<u64> {
        due_offsets(self.notes, self.bar_ms)
    }

    /// The timeline after `note` is scheduled at `offset`: the note stands
    /// there alone, whatever stood there before.
    pub open spec fn scheduled(self, offset: u64, note: RawNote) -> TimelineModel {
        TimelineModel { notes: self.notes.insert(offset, note), ..self }
    }
}

/// A note scheduled where another stands takes its place, and one sweep of
/// the bar meets that offset once.
pub proof fn lemma_schedule_overwrites(
    timeline: TimelineModel,
    offset: u64,
    first: RawNote,
    second: RawNote,
)
    ensures
        timeline.scheduled(offset, first).scheduled(offset, second) == timeline.scheduled(
            offset,
            second,
        ),
        timeline.scheduled(offset, second).notes[offset] == second,
        offset < timeline.bar_ms ==> occurs_once(
            timeline.scheduled(offset, second).due(),
            offset,
        ),
{
    let once = timeline.scheduled(offset, second);
    let twice = timeline.scheduled(offset, first).scheduled(offset, second);
    assert(twice.notes =~= once.notes);
    if offset < timeline.bar_ms {
        let due = once.due();
        lemma_due_offsets_members(once.notes, once.bar_ms);
        lemma_due_offsets_ascending(once.notes, once.bar_ms);
        assert(due.contains(offset));
        let i = choose|i: int| 0 <= i < due.len() && due[i] == offset;
        assert forall|j: int| 0 <= j < due.len() && #[trigger] due[j] == offset implies j
            == i by {
            if i < j {
                assert(due[i] < due[j]);
            }
            if j < i {
                assert(due[j] < due[i]);
            }
        }
    }
}

/// What one sweep of a timeline did.
#[derive(Debug)]
pub struct SweepReport {
    /// The offsets at which a note was handed to the instrument, in order.
    pub dispatched: Vec<u64>,
    /// Whether the instrument refused the last of them, which ended the
    /// sweep.
    pub refused: bool,
}

/// A bar together with its length in milliseconds.
struct KnownBar {
    beat: BeatValue,
    length: u64,
}

impl KnownBar {
    #[verifier::type_invariant]
    spec fn length_is_that_of_the_bar(self) -> bool {
        self.beat.bar_ms() == Some(self.length as nat)
    }
}

/// The notes of one bar, and the length of that bar.
pub struct Timeline {
    bar: KnownBar,
    notes: HashMap<u64, RawNote>,
}

impl View for Timeline {
    type V = TimelineModel;

    closed spec fn view(&self) -> TimelineModel {
        TimelineModel { bar_ms: self.bar.length, notes: self.notes@ }
    }
}

impl Timeline {
    /// Makes an empty timeline for bars of length `beat`. A bar whose length
    /// is not known is refused.
    pub fn new(beat: BeatValue) -> (result: Result<Timeline, TimingError>)
        ensures
            match result {
                Ok(timeline) => beat.bar_ms() == Some(timeline@.bar_ms as nat) && timeline@.notes
                    == Map::<u64, RawNote>::empty(),
                Err(e) => beat.bar_ms() is None && e == TimingError::IncompleteTime,
            },
    {
        match beat.u64_from_beats(1, 1) {
            Ok(length) => Ok(Timeline { bar: KnownBar { beat, length }, notes: HashMap::new() }),
            Err(e) => Err(e),
        }
    }

    /// The length of the bar.
    pub fn beat(&self) -> (beat: BeatValue)
        ensures
            beat.bar_ms() == Some(self@.bar_ms as nat),
    {
        proof {
            use_type_invariant(&self.bar);
        }
        self.bar.beat
    }

    /// The note at `offset` milliseconds from the start of the bar, if there
    /// is one.
    pub fn note_at(&self, offset: u64) -> (note: Option<RawNote>)
        ensures
            note == if self@.notes.contains_key(offset) {
                Some(self@.notes[offset])
            } else {
                None
            },
    {
        broadcast use vstd::std_specs::hash::group_hash_axioms;

        match self.notes.get(&offset) {
            Some(note) => Some(*note),
            None => None,
        }
    }

    /// Puts `note` at the `bar_index`-th part of the bar divided into
    /// `subdivisions` equal parts, in place of any note that stood there,
    /// and tells the offset. Where the offset cannot be computed, the
    /// timeline stays as it is.
    pub fn schedule(&mut self, bar_index: u64, subdivisions: u64, note: RawNote) -> (result: Result<
        u64,
        TimingError,
    >)
        ensures
            match offset_ms(Some(old(self)@.bar_ms as nat), subdivisions as nat, bar_index as nat) {
                Ok(offset) => result == Ok::<u64, TimingError>(offset) && final(self)@ == old(
                    self,
                )@.scheduled(offset, note),
                Err(e) => result == Err::<u64, TimingError>(e) && final(self)@ == old(self)@,
            },
    {
        broadcast use vstd::std_specs::hash::group_hash_axioms;

        proof {
            use_type_invariant(&self.bar);
        }
        match self.bar.beat.u64_from_beats(subdivisions, bar_index) {
            Ok(offset) => {
                self.notes.insert(offset, note);
                Ok(offset)
            },
            Err(e) => Err(e),
        }
    }

    /// Sweeps the bar once, tick by tick from zero to its length, and hands
    /// each note to `instrument` when the sweep reaches its offset. The
    /// sweep ends early if the instrument refuses a note. The timeline
    /// itself stays as it is.
    pub fn sweep<T: PlayableInstrument>(&self, instrument: &mut InstrumentWrapper<T>) -> (report:
        SweepReport)
        ensures
            report.dispatched@.len() <= self@.due().len(),
            report.dispatched@ == self@.due().take(report.dispatched@.len() as int),
            !report.refused ==> report.dispatched@ == self@.due(),
            report.refused ==> report.dispatched@.len() > 0,
            forall|i: int|
                0 <= i < report.dispatched@.len() ==> self@.notes.contains_key(
                    #[trigger] report.dispatched@[i],
                ) && report.dispatched@[i] < self@.bar_ms,
            forall|i: int, j: int|
                0 <= i < j < report.dispatched@.len() ==> report.dispatched@[i]
                    < report.dispatched@[j],
            forall|offset: u64|
                self@.notes.contains_key(offset) && offset < self@.bar_ms && (report.refused
                    ==> offset <= report.dispatched@.last())
                    ==> #[trigger] report.dispatched@.contains(offset),
            final(instrument).history() == old(instrument).history() + handed_over(
                self@.notes,
                report.dispatched@,
                report.refused,
            ),
    {
        broadcast use vstd::std_specs::hash::group_hash_axioms;

        proof {
            assert(old(instrument).history() + handed_over(self@.notes, Seq::empty(), false)
                =~= old(instrument).history());
        }
        let mut dispatched: Vec<u64> = Vec::new();
        let bar: u64 = self.bar.length;
        let mut time: u64 = 0;
        while time < bar
            invariant
                time <= bar,
                bar == self@.bar_ms,
                dispatched@ == due_offsets(self@.notes, time),
                instrument.history() == old(instrument).history() + handed_over(
                    self@.notes,
                    dispatched@,
                    false,
                ),
            decreases bar - time,
        {
            match self.notes.get(&time) {
                Some(x) => {
                    let ghost before = dispatched@;
                    dispatched.push(time);
                    let outcome = instrument.play(x);
                    let played = was_played(&outcome);
                    proof {
                        assert(handed_over(self@.notes, before, false).push(
                            Attempt { note: *x, played },
                        ) =~= handed_over(self@.notes, dispatched@, !played));
                        assert(instrument.history() =~= old(instrument).history() + handed_over(
                            self@.notes,
                            dispatched@,
                            !played,
                        ));
                    }
                    if !played {
                        proof {
                            lemma_swept(self@.notes, (time + 1) as u64, bar);
                        }
                        return SweepReport { dispatched, refused: true };
                    }
                },
                None => {},
            };
            time = time + 1;
        }
        proof {
            lemma_swept(self@.notes, bar, bar);
        }
        SweepReport { dispatched, refused: false }
    }
}

} // verus!

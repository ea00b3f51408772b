//! Time: a clock reading in hours, minutes, seconds and milliseconds, and
//! the length of a bar at a given tempo.

use vstd::prelude::*;

verus! {

/// Milliseconds in one second.
pub const MS_PER_SECOND: u64 = 1000;

/// Milliseconds in one minute.
pub const MS_PER_MINUTE: u64 = 60_000;

/// Milliseconds in one hour.
pub const MS_PER_HOUR: u64 = 3_600_000;

/// Number of hours at which the hour field of a clock reading wraps.
pub const HOUR_LIMIT: u64 = 65_536;

/// Length of a bar, in milliseconds, at a tempo of a thousandth of a beat per
/// minute.
pub const BAR_MS_AT_UNIT_TEMPO: u64 = 60_000_000;

/// Why a tempo or an offset could not be computed.
#[derive(Clone, Copy, Debug, PartialEq, Eq, Structural)]
pub enum TimingError {
    /// The tempo is not above zero.
    InvalidTempo,
    /// The bar was to be divided into zero parts.
    DivisionByZero,
    /// The clock reading that gives the bar's length lacks a field.
    IncompleteTime,
    /// The offset does not fit in 64 bits.
    Overflow,
}

/// A clock reading, of which any field may still be missing.
#[derive(Clone, Copy, Debug, Hash, PartialEq, Eq, Structural)]
pub struct Time {
    /// Hours.
    pub h: Option<u16>,
    /// Minutes.
    pub m: Option<u16>,
    /// Seconds.
    pub s: Option<u16>,
    /// Milliseconds.
    pub ms: Option<u16>,
}

/// A clock reading, told apart by whether every field is set.
#[derive(Clone, Copy, Debug, PartialEq, Eq, Structural)]
pub enum TimeValue {
    /// A reading with every field set.
    Complete(Time),
    /// A reading that lacks a field.
    Incomplete(Time),
}

/// Milliseconds in `h` hours, `m` minutes, `s` seconds and `ms` milliseconds.
pub open spec fn total_ms(h: nat, m: nat, s: nat, ms: nat) -> nat {
    ((h * 60 + m) * 60 + s) * MS_PER_SECOND as nat + ms
}

impl Time {
    /// The reading with no field set.
    pub open spec fn unset() -> Time {
        Time { h: None, m: None, s: None, ms: None }
    }

    /// Whether every field is set.
    pub open spec fn is_complete(self) -> bool {
        self.h is Some && self.m is Some && self.s is Some && self.ms is Some
    }

    /// Whether every field is set and minutes, seconds and milliseconds are
    /// below 60, 60 and 1000.
    pub open spec fn is_normal(self) -> bool {
        &&& self.is_complete()
        &&& self.m->0 < 60
        &&& self.s->0 < 60
        &&& self.ms->0 < 1000
    }

    /// The reading in milliseconds, if every field is set.
    pub open spec fn spec_as_ms(self) -> Option<nat> {
        if self.is_complete() {
            Some(total_ms(self.h->0 as nat, self.m->0 as nat, self.s->0 as nat, self.ms->0 as nat))
        } else {
            None
        }
    }

    /// The reading that stands for `value` milliseconds. Hours wrap at
    /// `HOUR_LIMIT`.
    pub open spec fn spec_from_ms(value: nat) -> Time {
        Time {
            h: Some(((value / MS_PER_HOUR as nat) % HOUR_LIMIT as nat) as u16),
            m: Some(((value / MS_PER_MINUTE as nat) % 60) as u16),
            s: Some(((value / MS_PER_SECOND as nat) % 60) as u16),
            ms: Some((value % MS_PER_SECOND as nat) as u16),
        }
    }

    /// The reading each of whose missing fields is zero.
    pub open spec fn zero_filled(self) -> Time {
        Time {
            h: Some(self.h.unwrap_or(0)),
            m: Some(self.m.unwrap_or(0)),
            s: Some(self.s.unwrap_or(0)),
            ms: Some(self.ms.unwrap_or(0)),
        }
    }

    /// Makes the reading with no field set.
    pub fn new() -> (time: Time)
        ensures
            time == Time::unset(),
    {
        Time { h: None, m: None, s: None, ms: None }
    }

    /// Converts the reading to milliseconds, if every field is set.
    pub fn as_ms(&self) -> (total: Option<u64>)
        ensures
            match total {
                Some(t) => self.spec_as_ms() == Some(t as nat),
                None => self.spec_as_ms() is None,
            },
    {
        match (self.h, self.m, self.s, self.ms) {
            (Some(h_value), Some(m_value), Some(s_value), Some(ms_value)) => {
                let hours: u64 = h_value as u64;
                let minutes: u64 = hours * 60 + m_value as u64;
                let seconds: u64 = minutes * 60 + s_value as u64;
                Some(seconds * MS_PER_SECOND + ms_value as u64)
            },
            _ => None,
        }
    }

    /// Converts a number of milliseconds to a reading with every field set.
    pub fn from_ms(value: u64) -> (time: Time)
        ensures
            time == Time::spec_from_ms(value as nat),
            time.is_normal(),
    {
        let ms: u16 = (value % MS_PER_SECOND) as u16;
        let s: u16 = ((value / MS_PER_SECOND) % 60) as u16;
        let m: u16 = ((value / MS_PER_MINUTE) % 60) as u16;
        let h: u16 = ((value / MS_PER_HOUR) % HOUR_LIMIT) as u16;
        Time { h: Some(h), m: Some(m), s: Some(s), ms: Some(ms) }
    }

    /// Tells whether every field is set.
    pub fn check_completion(&self) -> (complete: bool)
        ensures
            complete == self.is_complete(),
    {
        match (self.h, self.m, self.s, self.ms) {
            (Some(_), Some(_), Some(_), Some(_)) => true,
            _ => false,
        }
    }
}

/// A number of milliseconds below `HOUR_LIMIT` hours comes back from its
/// reading: converting it to a reading and back gives the number.
pub proof fn lemma_from_ms_then_as_ms(value: nat)
    requires
        value < HOUR_LIMIT * MS_PER_HOUR,
    ensures
        Time::spec_from_ms(value).spec_as_ms() == Some(value),
{
    let h = value / 3_600_000;
    let m = (value / 60_000) % 60;
    let s = (value / 1000) % 60;
    let ms = value % 1000;
    assert(h < 65_536);
    assert(value / 60_000 == h * 60 + m);
    assert(value / 1000 == (value / 60_000) * 60 + s);
    assert(value == (value / 1000) * 1000 + ms);
}

/// Converting a normal reading to milliseconds and back gives the reading.
pub proof fn lemma_as_ms_then_from_ms(time: Time)
    requires
        time.is_normal(),
    ensures
        time.spec_as_ms() is Some,
        Time::spec_from_ms(time.spec_as_ms()->0) == time,
{
    let h = time.h->0 as nat;
    let m = time.m->0 as nat;
    let s = time.s->0 as nat;
    let ms = time.ms->0 as nat;
    let value = total_ms(h, m, s, ms);
    assert(value / 1000 == (h * 60 + m) * 60 + s);
    assert(value / 60_000 == h * 60 + m);
    assert(value / 3_600_000 == h);
}

/// Stages the fields of a clock reading one by one.
#[derive(Debug)]
pub struct TimeBuilder {
    internal_timer: Time,
}

impl View for TimeBuilder {
    type V = Time;

    closed spec fn view(&self) -> Time {
        self.internal_timer
    }
}

impl TimeBuilder {
    /// Makes a builder with no field staged.
    pub fn new() -> (builder: TimeBuilder)
        ensures
            builder@ == Time::unset(),
    {
        TimeBuilder { internal_timer: Time { h: None, m: None, s: None, ms: None } }
    }

    /// Hands out what is staged, marked complete if every field is staged.
    pub fn build(&self) -> (value: TimeValue)
        ensures
            value == if self@.is_complete() {
                TimeValue::Complete(self@)
            } else {
                TimeValue::Incomplete(self@)
            },
    {
        let timer = self.internal_timer;
        match (timer.h, timer.m, timer.s, timer.ms) {
            (Some(_), Some(_), Some(_), Some(_)) => TimeValue::Complete(timer),
            _ => TimeValue::Incomplete(timer),
        }
    }

    /// Hands out what is staged, each field that is not staged set to zero.
    pub fn safe_build(&self) -> (time: Time)
        ensures
            time == self@.zero_filled(),
    {
        let mut h = self.internal_timer.h;
        let mut m = self.internal_timer.m;
        let mut s = self.internal_timer.s;
        let mut ms = self.internal_timer.ms;

        match h {
            Some(_) => {},
            None => {
                h = Some(0)
            },
        }

        match m {
            Some(_) => {},
            None => {
                m = Some(0)
            },
        }

        match s {
            Some(_) => {},
            None => {
                s = Some(0)
            },
        }

        match ms {
            Some(_) => {},
            None => {
                ms = Some(0)
            },
        }

        Time { h, m, s, ms }
    }

    /// Stages the milliseconds.
    pub fn ms(self, ms: u16) -> (builder: TimeBuilder)
        ensures
            builder@ == (Time { ms: Some(ms), ..self@ }),
    {
        let mut builder = self;
        builder.internal_timer.ms = Some(ms);
        builder
    }

    /// Stages the hours.
    pub fn h(self, h: u16) -> (builder: TimeBuilder)
        ensures
            builder@ == (Time { h: Some(h), ..self@ }),
    {
        let mut builder = self;
        builder.internal_timer.h = Some(h);
        builder
    }

    /// Stages the minutes.
    pub fn m(self, m: u16) -> (builder: TimeBuilder)
        ensures
            builder@ == (Time { m: Some(m), ..self@ }),
    {
        let mut builder = self;
        builder.internal_timer.m = Some(m);
        builder
    }

    /// Stages the seconds.
    pub fn s(self, s: u16) -> (builder: TimeBuilder)
        ensures
            builder@ == (Time { s: Some(s), ..self@ }),
    {
        let mut builder = self;
        builder.internal_timer.s = Some(s);
        builder
    }
}

/// Length of a bar in milliseconds at a tempo of `millibeats` thousandths of
/// a beat per minute, rounded down.
pub open spec fn bar_duration_ms(millibeats: nat) -> nat
    recommends
        millibeats > 0,
{
    BAR_MS_AT_UNIT_TEMPO as nat / millibeats
}

/// Position, in milliseconds from the start of a bar, of the `beats`-th
/// part when the bar is divided into `prec` equal parts: the length of one
/// part, rounded down, times `beats`.
///
/// No part can be told of a bar divided into zero parts, nor of a bar whose
/// length is not known, nor where the position does not fit in 64 bits.
pub open spec fn offset_ms(bar: Option<nat>, prec: nat, beats: nat) -> Result<u64, TimingError> {
    if prec == 0 {
        Err(TimingError::DivisionByZero)
    } else {
        match bar {
            None => Err(TimingError::IncompleteTime),
            Some(length) => if (length / prec) * beats > u64::MAX {
                Err(TimingError::Overflow)
            } else {
                Ok(((length / prec) * beats) as u64)
            },
        }
    }
}

/// The parts of a bar lie within the bar: the offset of a part that the
/// division has is computed, and is no greater than the bar's length.
pub proof fn lemma_offset_within_bar(bar: nat, prec: nat, beats: nat)
    requires
        bar <= u64::MAX,
        0 < prec,
        beats <= prec,
    ensures
        offset_ms(Some(bar), prec, beats) == Ok::<u64, TimingError>(((bar / prec) * beats) as u64),
        (bar / prec) * beats <= bar,
{
    let part = bar / prec;
    assert(part * beats <= part * prec) by (nonlinear_arith)
        requires
            beats <= prec,
            0 <= part,
    ;
    assert(part * prec <= bar) by (nonlinear_arith)
        requires
            part == bar / prec,
            0 < prec,
    ;
}

/// The length of one bar.
#[derive(Clone, Copy, Debug, Hash, PartialEq, Eq, Structural)]
pub struct BeatValue {
    time_per_bar: Time,
}

impl View for BeatValue {
    type V = Time;

    closed spec fn view(&self) -> Time {
        self.time_per_bar
    }
}

impl BeatValue {
    /// Length of the bar in milliseconds, if its clock reading is complete.
    pub open spec fn bar_ms(self) -> Option<nat> {
        self@.spec_as_ms()
    }

    /// Makes the bar whose length is the reading `time`.
    pub fn new(time: Time) -> (beat: BeatValue)
        ensures
            beat@ == time,
    {
        BeatValue { time_per_bar: time }
    }

    /// Makes the bar of a tempo, given in thousandths of a beat per minute.
    /// A tempo of zero is refused.
    pub fn from_bpm(millibeats: u64) -> (result: Result<BeatValue, TimingError>)
        ensures
            match result {
                Ok(beat) => millibeats > 0 && beat@ == Time::spec_from_ms(
                    bar_duration_ms(millibeats as nat),
                ) && beat.bar_ms() == Some(bar_duration_ms(millibeats as nat)),
                Err(e) => millibeats == 0 && e == TimingError::InvalidTempo,
            },
    {
        if millibeats == 0 {
            Err(TimingError::InvalidTempo)
        } else {
            let to_ms: u64 = BAR_MS_AT_UNIT_TEMPO / millibeats;
            proof {
                lemma_from_ms_then_as_ms(to_ms as nat);
            }
            Ok(BeatValue { time_per_bar: Time::from_ms(to_ms) })
        }
    }

    /// Computes the position, in milliseconds from the start of the bar, of
    /// the `beats`-th part when the bar is divided into `prec` equal parts.
    pub fn u64_from_beats(&self, prec: u64, beats: u64) -> (result: Result<u64, TimingError>)
        ensures
            result == offset_ms(self.bar_ms(), prec as nat, beats as nat),
    {
        if prec == 0 {
            return Err(TimingError::DivisionByZero);
        }
        match self.time_per_bar.as_ms() {
            Some(x) => {
                match (x / prec).checked_mul(beats) {
                    Some(offset) => Ok(offset),
                    None => Err(TimingError::Overflow),
                }
            },
            None => Err(TimingError::IncompleteTime),
        }
    }
}

} // verus!

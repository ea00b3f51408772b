//! Pitch classes, registers and the frequency each pair stands for.

use vstd::prelude::*;

verus! {

/// One of the twelve chromatic pitch classes.
#[derive(Clone, Copy, Debug, PartialEq, Eq, Structural)]
pub enum Semitone {
    C,
    CSharp,
    D,
    DSharp,
    E,
    F,
    FSharp,
    G,
    GSharp,
    A,
    ASharp,
    B,
}

/// A pitch class, by its other name.
pub type NotePitch = Semitone;

/// One of the six octave bands.
#[derive(Clone, Copy, Debug, PartialEq, Eq, Structural)]
pub enum Register {
    C0,
    C1,
    C2,
    C3,
    C4,
    C5,
}

/// Base frequency of a pitch class, in hundredths of a hertz.
pub open spec fn base_pitch(p: Semitone) -> nat {
    match p {
        Semitone::C => 1635,
        Semitone::CSharp => 1732,
        Semitone::D => 1835,
        Semitone::DSharp => 1945,
        Semitone::E => 2080,
        Semitone::F => 2183,
        Semitone::FSharp => 2312,
        Semitone::G => 2450,
        Semitone::GSharp => 2596,
        Semitone::A => 2750,
        Semitone::ASharp => 2914,
        Semitone::B => 3087,
    }
}

/// Factor by which a register scales the base frequency.
pub open spec fn register_factor(r: Register) -> nat {
    match r {
        Register::C0 => 1,
        Register::C1 => 2,
        Register::C2 => 4,
        Register::C3 => 8,
        Register::C4 => 16,
        Register::C5 => 32,
    }
}

/// Frequency of pitch class `p` in register `r`, in hundredths of a hertz.
pub open spec fn herz(p: Semitone, r: Register) -> nat {
    base_pitch(p) * register_factor(r)
}

/// Computes the frequency of pitch class `p` in register `r`, in hundredths
/// of a hertz.
pub fn primitives_to_herz(p: Semitone, r: Register) -> (hz: u32)
    ensures
        hz == herz(p, r),
{
    let base_pitch: u32 = match p {
        Semitone::C => 1635,
        Semitone::CSharp => 1732,
        Semitone::D => 1835,
        Semitone::DSharp => 1945,
        Semitone::E => 2080,
        Semitone::F => 2183,
        Semitone::FSharp => 2312,
        Semitone::G => 2450,
        Semitone::GSharp => 2596,
        Semitone::A => 2750,
        Semitone::ASharp => 2914,
        Semitone::B => 3087,
    };
    let base_register: u32 = match r {
        Register::C0 => 1,
        Register::C1 => 2,
        Register::C2 => 4,
        Register::C3 => 8,
        Register::C4 => 16,
        Register::C5 => 32,
    };
    base_pitch * base_register
}

} // verus!

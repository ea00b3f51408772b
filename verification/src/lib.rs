//! A tempo-relative note scheduling engine.
//!
//! Notes are described by pitch class, register, offset, amplitude and
//! length; a builder stages these one by one and checks that none is
//! missing. A tempo gives the length of a bar, and a part of the bar gives an
//! offset in milliseconds. A timeline holds one note per offset, and a track
//! sweeps its timeline and plays each note on its instrument.
//!
//! All quantities are integers: frequencies in hundredths of a hertz, tempos
//! in thousandths of a beat per minute, offsets within a beat in thousandths
//! of a beat, amplitudes in thousandths of full scale, and times in
//! milliseconds.

pub mod instrument;
pub mod notation;
pub mod note;
pub mod pitch;
pub mod sequencer;
pub mod timeline;
pub mod timing;
pub mod track;

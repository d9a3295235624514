//! The integer part of pitch-to-frequency conversion: how far a note lies
//! from the reference pitch. In twelve-tone equal temperament the frequency
//! of a note is the reference frequency times two to the power of that
//! distance over twelve.

use vstd::prelude::*;
use crate::pitch::{Key, Note};

verus! {

/// Frequency of the reference pitch, in hertz.
pub const REFERENCE_HZ: u32 = 440;

/// The reference pitch, A in octave 4.
pub open spec fn reference_note() -> Note {
    Note { note: Key::A, octave: 4 }
}

/// The reference pitch, A in octave 4.
pub fn concert_pitch() -> (note: Note)
    ensures
        note == reference_note(),
        note.semitones() == 57,
{
    Note::new(Key::A, 4)
}

/// The distance in semitones from `reference` up to `note`; negative when
/// `note` is the lower one.
pub fn semitones_between(note: Note, reference: Note) -> (distance: i64)
    ensures
        distance as int == note.semitones() - reference.semitones(),
{
    note.wide_semitone_value() - reference.wide_semitone_value()
}

/// The distance in semitones from the reference pitch up to `note`.
pub fn semitones_above_reference(note: Note) -> (distance: i64)
    ensures
        distance as int == note.semitones() - reference_note().semitones(),
        distance as int == note.semitones() - 57,
{
    semitones_between(note, concert_pitch())
}

} // verus!

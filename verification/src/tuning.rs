//! Tunings and the mapping from a fretboard position to the note it sounds.

use vstd::prelude::*;
use crate::pitch::{
    lemma_note_round_trip, note_of, octave_of_semitones, representable, Key, Note,
};

verus! {

/// Number of strings of the standard tuning.
pub const STANDARD_STRINGS: usize = 6;

/// The open-string notes of standard guitar tuning, lowest string first:
/// E2, A2, D3, G3, B3, E4.
pub open spec fn standard_tuning() -> Seq<Note> {
    seq![
        Note { note: Key::E, octave: 2 },
        Note { note: Key::A, octave: 2 },
        Note { note: Key::D, octave: 3 },
        Note { note: Key::G, octave: 3 },
        Note { note: Key::B, octave: 3 },
        Note { note: Key::E, octave: 4 },
    ]
}

/// The semitone count at `fret` of a string tuned to `tuning[string]`: the
/// open note raised by one semitone per fret.
pub open spec fn position_semitones(tuning: Seq<Note>, string: int, fret: int) -> int {
    tuning[string].semitones() + fret
}

/// The note sounded at `fret` of string `string`.
pub open spec fn sounded(tuning: Seq<Note>, string: int, fret: int) -> Note {
    note_of(position_semitones(tuning, string, fret))
}

/// Whether every position of the first `frets` frets of every string of
/// `tuning` sounds a note whose octave can be written down.
pub open spec fn playable(tuning: Seq<Note>, frets: int) -> bool {
    forall|s: int, f: int|
        0 <= s < tuning.len() && 0 <= f < frets ==> representable(
            #[trigger] position_semitones(tuning, s, f),
        )
}

/// Whether the first `fret_count` frets of every string of `tuning` sound
/// notes whose octaves can be written down. Standard tuning passes for every
/// fret count.
pub fn is_playable(tuning: &[Note], fret_count: u32) -> (ok: bool)
    ensures
        ok == playable(tuning@, fret_count as int),
{
    if fret_count == 0 {
        return true;
    }
    let last = (fret_count - 1) as i64;
    let mut string: usize = 0;
    while string < tuning.len()
        invariant
            string <= tuning@.len(),
            last == fret_count - 1,
            forall|s: int, f: int|
                0 <= s < string && 0 <= f < fret_count ==> representable(
                    #[trigger] position_semitones(tuning@, s, f),
                ),
        decreases tuning@.len() - string,
    {
        let highest = tuning[string].wide_semitone_value() + last;
        if octave_of_semitones(highest) > i32::MAX as i64 {
            assert(!representable(position_semitones(tuning@, string as int, last as int)));
            return false;
        }
        proof {
            lemma_note_round_trip(tuning@[string as int]);
            assert forall|f: int| 0 <= f < fret_count implies representable(
                #[trigger] position_semitones(tuning@, string as int, f),
            ) by {
                let low = tuning@[string as int].semitones();
                assert(low / 12 <= (low + f) / 12 <= (low + last) / 12);
            }
        }
        string += 1;
    }
    true
}

/// The open-string notes of standard tuning as an array.
pub fn make_base_notes() -> (notes: [Note; 6])
    ensures
        notes@ == standard_tuning(),
{
    let notes = [
        Note { note: Key::E, octave: 2 },
        Note { note: Key::A, octave: 2 },
        Note { note: Key::D, octave: 3 },
        Note { note: Key::G, octave: 3 },
        Note { note: Key::B, octave: 3 },
        Note { note: Key::E, octave: 4 },
    ];
    assert(notes@ =~= standard_tuning());
    notes
}

/// The open-string notes of standard tuning, index 0 being the low E string.
pub fn get_string_base_notes() -> (notes: &'static [Note; 6])
    ensures
        notes@ == standard_tuning(),
{
    let notes: &'static [Note; 6] = &[
        Note { note: Key::E, octave: 2 },
        Note { note: Key::A, octave: 2 },
        Note { note: Key::D, octave: 3 },
        Note { note: Key::G, octave: 3 },
        Note { note: Key::B, octave: 3 },
        Note { note: Key::E, octave: 4 },
    ];
    assert(notes@ =~= standard_tuning());
    notes
}

/// The note at `fret` of string `string` of an instrument tuned to `tuning`.
///
/// The string must exist. Any fret is accepted as long as the octave of the
/// note it sounds fits a note's octave field.
pub fn note_at(tuning: &[Note], string: usize, fret: u32) -> (note: Note)
    requires
        string < tuning@.len(),
        representable(position_semitones(tuning@, string as int, fret as int)),
    ensures
        note == sounded(tuning@, string as int, fret as int),
{
    tuning[string].transposed(fret as i64)
}

/// The note at `fret` of string `string` in standard tuning; string 0 is the
/// low E string and fret 0 the open string.
pub fn get_note_at_position(string: u8, fret: u8) -> (note: Note)
    requires
        string < STANDARD_STRINGS,
    ensures
        note == sounded(standard_tuning(), string as int, fret as int),
{
    let tuning = get_string_base_notes();
    note_at(tuning, string as usize, fret as u32)
}

/// Every position of standard tuning can be written down, however many
/// frets are asked for.
pub proof fn lemma_standard_tuning_playable(frets: u32)
    ensures
        standard_tuning().len() == STANDARD_STRINGS,
        playable(standard_tuning(), frets as int),
{
    let tuning = standard_tuning();
    assert forall|s: int, f: int| 0 <= s < tuning.len() && 0 <= f < frets implies representable(
        #[trigger] position_semitones(tuning, s, f),
    ) by {
        assert(28 <= tuning[s].semitones() <= 52);
    }
}

} // verus!

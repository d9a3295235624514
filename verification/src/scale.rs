//! Scale types, their interval tables, and scale membership of notes.

use vstd::prelude::*;
use crate::pitch::{Key, Note, note_of};

verus! {

/// The scale types the fretboard can highlight.
#[derive(Clone, Copy, Debug, PartialEq, Eq, Structural)]
pub enum Scale {
    Major,
    NaturalMinor,
    MajorPentatonic,
    MinorPentatonic,
    MajorBlues,
    MinorBlues,
}

impl Scale {
    /// The semitone offsets from the root that make up this scale, in rising
    /// order.
    pub open spec fn offsets(self) -> Seq<i32> {
        match self {
            Scale::Major => seq![0i32, 2, 4, 5, 7, 9, 11],
            Scale::NaturalMinor => seq![0i32, 2, 3, 5, 7, 8, 10],
            Scale::MajorPentatonic => seq![0i32, 2, 4, 7, 9],
            Scale::MinorPentatonic => seq![0i32, 3, 5, 7, 10],
            Scale::MajorBlues => seq![0i32, 3, 4, 7, 9],
            Scale::MinorBlues => seq![0i32, 3, 5, 6, 7, 10],
        }
    }

    /// The semitone offsets from the root that make up this scale.
    pub fn intervals(self) -> (table: &'static [i32])
        ensures
            table@ == self.offsets(),
    {
        let table: &'static [i32] = match self {
            Scale::Major => &[0, 2, 4, 5, 7, 9, 11],
            Scale::NaturalMinor => &[0, 2, 3, 5, 7, 8, 10],
            Scale::MajorPentatonic => &[0, 2, 4, 7, 9],
            Scale::MinorPentatonic => &[0, 3, 5, 7, 10],
            Scale::MajorBlues => &[0, 3, 4, 7, 9],
            Scale::MinorBlues => &[0, 3, 5, 6, 7, 10],
        };
        assert(table@ =~= self.offsets());
        table
    }

    /// The number under which a scale type is selected: `1` for `Major` up
    /// to `6` for `MinorBlues`.
    pub open spec fn tag(self) -> int {
        match self {
            Scale::Major => 1,
            Scale::NaturalMinor => 2,
            Scale::MajorPentatonic => 3,
            Scale::MinorPentatonic => 4,
            Scale::MajorBlues => 5,
            Scale::MinorBlues => 6,
        }
    }

    /// The display name of this scale type.
    pub open spec fn label(self) -> Seq<char> {
        match self {
            Scale::Major => "Major"@,
            Scale::NaturalMinor => "Natural Minor"@,
            Scale::MajorPentatonic => "Major Pentatonic"@,
            Scale::MinorPentatonic => "Minor Pentatonic"@,
            Scale::MajorBlues => "Major Blues"@,
            Scale::MinorBlues => "Minor Blues"@,
        }
    }

    /// The scale type selected by `value`; any number outside `1..=6`
    /// selects `Major`.
    pub open spec fn of_tag(value: int) -> Scale {
        if value == 2 {
            Scale::NaturalMinor
        } else if value == 3 {
            Scale::MajorPentatonic
        } else if value == 4 {
            Scale::MinorPentatonic
        } else if value == 5 {
            Scale::MajorBlues
        } else if value == 6 {
            Scale::MinorBlues
        } else {
            Scale::Major
        }
    }

    /// The scale type selected by `value`; any number outside `1..=6`
    /// selects `Major`.
    pub fn from_int(value: i32) -> (scale: Scale)
        ensures
            scale == Scale::of_tag(value as int),
    {
        match value {
            1 => Scale::Major,
            2 => Scale::NaturalMinor,
            3 => Scale::MajorPentatonic,
            4 => Scale::MinorPentatonic,
            5 => Scale::MajorBlues,
            6 => Scale::MinorBlues,
            _ => Scale::Major,
        }
    }

    /// The number under which this scale type is selected.
    pub fn to_int(self) -> (value: i32)
        ensures
            value as int == self.tag(),
    {
        match self {
            Scale::Major => 1,
            Scale::NaturalMinor => 2,
            Scale::MajorPentatonic => 3,
            Scale::MinorPentatonic => 4,
            Scale::MajorBlues => 5,
            Scale::MinorBlues => 6,
        }
    }

    /// The display name of this scale type.
    pub fn name(self) -> (text: &'static str)
        ensures
            text@ == self.label(),
    {
        match self {
            Scale::Major => "Major",
            Scale::NaturalMinor => "Natural Minor",
            Scale::MajorPentatonic => "Major Pentatonic",
            Scale::MinorPentatonic => "Minor Pentatonic",
            Scale::MajorBlues => "Major Blues",
            Scale::MinorBlues => "Minor Blues",
        }
    }
}

/// How many octaves `get_notes_in_scale` lists, starting at octave 0.
pub const LISTED_OCTAVES: usize = 8;

/// The distance in semitones from `key` up to the pitch class of `note`, in
/// `0..12`.
pub open spec fn degree(note: Note, key: Key) -> int {
    (note.note.ordinal() - key.ordinal()) % 12
}

/// Scale membership: the distance from the key up to the note's pitch class
/// is one of the scale's offsets. The octave plays no part.
pub open spec fn in_scale(note: Note, key: Key, scale: Scale) -> bool {
    exists|i: int| 0 <= i < scale.offsets().len() && #[trigger] scale.offsets()[i] == degree(note, key)
}

/// The notes of a scale over the listed octaves: octave by octave, and within
/// an octave in the order of the scale's offsets.
pub open spec fn scale_notes(key: Key, scale: Scale) -> Seq<Note> {
    let offsets = scale.offsets();
    Seq::new(
        LISTED_OCTAVES as nat * offsets.len(),
        |i: int| note_of(key.ordinal() + offsets[i % offsets.len() as int] + 12 * (i / offsets.len() as int)),
    )
}

/// Every scale has five to seven offsets, each within one octave.
pub proof fn lemma_offsets_within_octave(scale: Scale)
    ensures
        5 <= scale.offsets().len() <= 7,
        forall|i: int| 0 <= i < scale.offsets().len() ==> 0 <= #[trigger] scale.offsets()[i] < 12,
{
    match scale {
        Scale::Major => {},
        Scale::NaturalMinor => {},
        Scale::MajorPentatonic => {},
        Scale::MinorPentatonic => {},
        Scale::MajorBlues => {},
        Scale::MinorBlues => {},
    }
}

/// Whether `target` occurs in `table`.
fn holds_offset(table: &[i32], target: i32) -> (found: bool)
    ensures
        found == exists|i: int| 0 <= i < table@.len() && #[trigger] table@[i] == target,
{
    let mut i: usize = 0;
    while i < table.len()
        invariant
            i <= table@.len(),
            forall|j: int| 0 <= j < i ==> #[trigger] table@[j] != target,
        decreases table@.len() - i,
    {
        if table[i] == target {
            return true;
        }
        i += 1;
    }
    false
}

/// Whether `note` belongs to the scale of type `scale` rooted at `key`.
pub fn is_note_in_scale(note: Note, key: Key, scale: Scale) -> (member: bool)
    ensures
        member == in_scale(note, key, scale),
{
    let intervals = scale.intervals();
    let key_offset = key.to_int();
    let note_value = note.note.to_int();
    let distance = (note_value - key_offset + 12) % 12;
    assert(distance as int == degree(note, key));
    holds_offset(intervals, distance)
}

/// Every note of the scale of type `scale` rooted at `key`, over the listed
/// octaves.
pub fn get_notes_in_scale(key: Key, scale: Scale) -> (notes: Vec<Note>)
    ensures
        notes@ == scale_notes(key, scale),
{
    let intervals = scale.intervals();
    let key_offset = key.to_int();
    let mut notes: Vec<Note> = Vec::new();
    let ghost offsets = scale.offsets();
    let ghost listed = scale_notes(key, scale);
    proof {
        lemma_offsets_within_octave(scale);
    }
    let mut octave: usize = 0;
    while octave < LISTED_OCTAVES
        invariant
            octave <= LISTED_OCTAVES,
            intervals@ == offsets,
            offsets == scale.offsets(),
            listed == scale_notes(key, scale),
            5 <= offsets.len() <= 7,
            forall|j: int| 0 <= j < offsets.len() ==> 0 <= #[trigger] offsets[j] < 12,
            key_offset as int == key.ordinal(),
            notes@.len() == octave * offsets.len(),
            forall|k: int| 0 <= k < notes@.len() ==> #[trigger] notes@[k] == listed[k],
        decreases LISTED_OCTAVES - octave,
    {
        let mut j: usize = 0;
        while j < intervals.len()
            invariant
                octave < LISTED_OCTAVES,
                j <= intervals.len(),
                intervals@ == offsets,
                offsets == scale.offsets(),
                listed == scale_notes(key, scale),
                5 <= offsets.len() <= 7,
                forall|j: int| 0 <= j < offsets.len() ==> 0 <= #[trigger] offsets[j] < 12,
                key_offset as int == key.ordinal(),
                notes@.len() == octave * offsets.len() + j,
                forall|k: int| 0 <= k < notes@.len() ==> #[trigger] notes@[k] == listed[k],
            decreases intervals.len() - j,
        {
            let interval = intervals[j];
            assert(interval == offsets[j as int]);
            let semitone: i32 = key_offset + interval + (octave as i32) * 12;
            proof {
                let len = offsets.len() as int;
                let k = octave * len + j;
                assert(k / len == octave && k % len == j) by (nonlinear_arith)
                    requires
                        k == octave * len + j,
                        0 <= j < len,
                        0 <= octave,
                ;
                assert(k < LISTED_OCTAVES * len) by (nonlinear_arith)
                    requires
                        k == octave * len + j,
                        0 <= j < len,
                        0 <= octave < LISTED_OCTAVES,
                ;
                assert(listed[k] == note_of(semitone as int));
            }
            notes.push(Note::from_semitone_value(semitone));
            j += 1;
        }
        assert((octave + 1) * offsets.len() == octave * offsets.len() + offsets.len())
            by (nonlinear_arith);
        octave += 1;
    }
    assert(notes@ =~= listed);
    notes
}

/// Scale membership does not depend on the octave of the note.
pub proof fn lemma_in_scale_ignores_octave(pitch: Key, first: i32, second: i32, key: Key, scale: Scale)
    ensures
        in_scale(Note { note: pitch, octave: first }, key, scale) == in_scale(
            Note { note: pitch, octave: second },
            key,
            scale,
        ),
{
    let a = Note { note: pitch, octave: first };
    let b = Note { note: pitch, octave: second };
    assert(degree(a, key) == degree(b, key));
}

/// The root of a scale always belongs to it.
pub proof fn lemma_root_in_scale(octave: i32, key: Key, scale: Scale)
    ensures
        in_scale(Note { note: key, octave }, key, scale),
{
    let root = Note { note: key, octave };
    assert(degree(root, key) == 0);
    assert(scale.offsets()[0] == 0);
}

/// The notes of C major are the seven natural pitch classes, in any octave.
pub proof fn lemma_c_major_is_the_naturals(note: Note)
    ensures
        in_scale(note, Key::C, Scale::Major) <==> (note.note == Key::C || note.note == Key::D
            || note.note == Key::E || note.note == Key::F || note.note == Key::G || note.note
            == Key::A || note.note == Key::B),
{
    let offsets = Scale::Major.offsets();
    let d = degree(note, Key::C);
    assert(d == note.note.ordinal());
    assert(offsets[0] == 0 && offsets[1] == 2 && offsets[2] == 4 && offsets[3] == 5 && offsets[4]
        == 7 && offsets[5] == 9 && offsets[6] == 11);
}

/// The listing of a scale has one note per offset and listed octave, and
/// every listed note belongs to the scale.
pub proof fn lemma_scale_notes_in_scale(key: Key, scale: Scale, i: int)
    requires
        0 <= i < scale_notes(key, scale).len(),
    ensures
        scale_notes(key, scale).len() == LISTED_OCTAVES * scale.offsets().len(),
        in_scale(scale_notes(key, scale)[i], key, scale),
{
    lemma_offsets_within_octave(scale);
    let offsets = scale.offsets();
    let len = offsets.len() as int;
    let j = i % len;
    let n = key.ordinal() + offsets[j] + 12 * (i / len);
    assert(0 <= j < len);
    assert(degree(note_of(n), key) == offsets[j]);
}

/// Selecting a scale type by its own number gives it back.
pub proof fn lemma_scale_tag_round_trip(scale: Scale)
    ensures
        1 <= scale.tag() <= 6,
        Scale::of_tag(scale.tag()) == scale,
{
}

} // verus!

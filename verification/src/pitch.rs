//! Pitch classes and octave-qualified notes, with their semitone arithmetic.

use vstd::prelude::*;
use crate::text::{push_signed_decimal, signed_decimal};

verus! {

/// One of the twelve pitch classes of equal temperament, `C` through `B`.
#[derive(Clone, Copy, Debug, PartialEq, Eq, Hash, Structural)]
pub enum Key {
    C,
    Cs,
    D,
    Ds,
    E,
    F,
    Fs,
    G,
    Gs,
    A,
    As,
    B,
}

/// The pitch class whose ordinal is `n` reduced modulo 12 (floor modulo, so
/// that `-1` is `B`).
pub open spec fn key_of(n: int) -> Key {
    let r = n % 12;
    if r == 0 {
        Key::C
    } else if r == 1 {
        Key::Cs
    } else if r == 2 {
        Key::D
    } else if r == 3 {
        Key::Ds
    } else if r == 4 {
        Key::E
    } else if r == 5 {
        Key::F
    } else if r == 6 {
        Key::Fs
    } else if r == 7 {
        Key::G
    } else if r == 8 {
        Key::Gs
    } else if r == 9 {
        Key::A
    } else if r == 10 {
        Key::As
    } else {
        Key::B
    }
}

/// Semitones in an octave.
pub const SEMITONES_PER_OCTAVE: i64 = 12;

/// Floor remainder of a semitone count by 12: always in `0..12`, also for a
/// negative count.
pub fn ordinal_of_semitones(n: i64) -> (r: i64)
    ensures
        r as int == (n as int) % 12,
        0 <= r < 12,
{
    if n >= 0 {
        n % SEMITONES_PER_OCTAVE
    } else {
        SEMITONES_PER_OCTAVE - 1 - (-(n + 1)) % SEMITONES_PER_OCTAVE
    }
}

/// Floor quotient of a semitone count by 12: the octave the count falls in,
/// rounding toward negative infinity.
pub fn octave_of_semitones(n: i64) -> (q: i64)
    ensures
        q as int == (n as int) / 12,
{
    if n >= 0 {
        n / SEMITONES_PER_OCTAVE
    } else {
        -1 - (-(n + 1)) / SEMITONES_PER_OCTAVE
    }
}

impl Key {
    /// The canonical ordinal of a pitch class, `0` for `C` up to `11` for `B`.
    pub open spec fn ordinal(self) -> int {
        match self {
            Key::C => 0,
            Key::Cs => 1,
            Key::D => 2,
            Key::Ds => 3,
            Key::E => 4,
            Key::F => 5,
            Key::Fs => 6,
            Key::G => 7,
            Key::Gs => 8,
            Key::A => 9,
            Key::As => 10,
            Key::B => 11,
        }
    }

    /// The written name of this pitch class: its letter, followed by `#` for
    /// a sharp.
    pub open spec fn label(self) -> Seq<char> {
        match self {
            Key::C => seq!['C'],
            Key::Cs => seq!['C', '#'],
            Key::D => seq!['D'],
            Key::Ds => seq!['D', '#'],
            Key::E => seq!['E'],
            Key::F => seq!['F'],
            Key::Fs => seq!['F', '#'],
            Key::G => seq!['G'],
            Key::Gs => seq!['G', '#'],
            Key::A => seq!['A'],
            Key::As => seq!['A', '#'],
            Key::B => seq!['B'],
        }
    }

    /// The pitch class of any integer, reduced modulo 12 with floor
    /// semantics.
    pub fn from_int(value: i32) -> (key: Key)
        ensures
            key == key_of(value as int),
            key.ordinal() == (value as int) % 12,
    {
        Key::from_ordinal(ordinal_of_semitones(value as i64))
    }

    /// The pitch class of an ordinal in `0..12`.
    pub fn from_ordinal(ordinal: i64) -> (key: Key)
        requires
            0 <= ordinal < 12,
        ensures
            key.ordinal() == ordinal,
            key == key_of(ordinal as int),
    {
        match ordinal {
            0 => Key::C,
            1 => Key::Cs,
            2 => Key::D,
            3 => Key::Ds,
            4 => Key::E,
            5 => Key::F,
            6 => Key::Fs,
            7 => Key::G,
            8 => Key::Gs,
            9 => Key::A,
            10 => Key::As,
            _ => Key::B,
        }
    }

    /// The ordinal of this pitch class.
    pub fn to_int(self) -> (n: i32)
        ensures
            n as int == self.ordinal(),
    {
        match self {
            Key::C => 0,
            Key::Cs => 1,
            Key::D => 2,
            Key::Ds => 3,
            Key::E => 4,
            Key::F => 5,
            Key::Fs => 6,
            Key::G => 7,
            Key::Gs => 8,
            Key::A => 9,
            Key::As => 10,
            Key::B => 11,
        }
    }

    /// The written name of this pitch class.
    pub fn name(self) -> (text: &'static str)
        ensures
            text@ == self.label(),
    {
        proof {
            reveal_strlit("C");
            reveal_strlit("C#");
            reveal_strlit("D");
            reveal_strlit("D#");
            reveal_strlit("E");
            reveal_strlit("F");
            reveal_strlit("F#");
            reveal_strlit("G");
            reveal_strlit("G#");
            reveal_strlit("A");
            reveal_strlit("A#");
            reveal_strlit("B");
        }
        let text = match self {
            Key::C => "C",
            Key::Cs => "C#",
            Key::D => "D",
            Key::Ds => "D#",
            Key::E => "E",
            Key::F => "F",
            Key::Fs => "F#",
            Key::G => "G",
            Key::Gs => "G#",
            Key::A => "A",
            Key::As => "A#",
            Key::B => "B",
        };
        assert(text@ =~= self.label());
        text
    }
}

/// A pitch class in a given octave.
///
/// A note stands for the semitone count `ordinal + 12 * octave`; two notes
/// are equal exactly when their counts are.
#[derive(Clone, Copy, Debug, PartialEq, Eq, Hash, Structural)]
pub struct Note {
    pub note: Key,
    pub octave: i32,
}

/// The note that a semitone count stands for: floor quotient by 12 for the
/// octave, floor remainder for the pitch class.
pub open spec fn note_of(n: int) -> Note {
    Note { note: key_of(n), octave: (n / 12) as i32 }
}

/// Whether the octave of a semitone count fits the octave field of a note.
pub open spec fn representable(n: int) -> bool {
    i32::MIN <= n / 12 <= i32::MAX
}

impl Note {
    /// The semitone count of this note, `ordinal(pitch class) + 12 * octave`.
    pub open spec fn semitones(self) -> int {
        self.note.ordinal() + 12 * self.octave
    }

    /// The written name of this note: the pitch class followed by the octave
    /// number in decimal.
    pub open spec fn label(self) -> Seq<char> {
        self.note.label() + signed_decimal(self.octave as int)
    }

    pub fn new(note: Key, octave: i32) -> (n: Note)
        ensures
            n.note == note,
            n.octave == octave,
    {
        Note { note, octave }
    }

    /// The written name of this note, such as `E2` or `C#4`.
    pub fn name(self) -> (text: String)
        ensures
            text@ == self.label(),
    {
        let mut text = String::from_str(self.note.name());
        push_signed_decimal(&mut text, self.octave as i64);
        text
    }

    /// The semitone count of this note. The count must fit the result type.
    pub fn semitone_value(self) -> (v: i32)
        requires
            i32::MIN <= self.semitones() <= i32::MAX,
        ensures
            v as int == self.semitones(),
    {
        self.wide_semitone_value() as i32
    }

    /// The semitone count of this note, in a width that every note fits.
    pub fn wide_semitone_value(self) -> (v: i64)
        ensures
            v as int == self.semitones(),
    {
        self.note.to_int() as i64 + self.octave as i64 * SEMITONES_PER_OCTAVE
    }

    /// The note of a semitone count, with floor semantics for a negative
    /// count.
    pub fn from_semitone_value(n: i32) -> (note: Note)
        ensures
            note == note_of(n as int),
    {
        Note::from_wide_semitone_value(n as i64)
    }

    /// This note moved by `semitones`, upward for a positive number and
    /// downward for a negative one. The octave of the result must fit.
    pub fn transposed(self, semitones: i64) -> (note: Note)
        requires
            representable(self.semitones() + semitones),
        ensures
            note == note_of(self.semitones() + semitones),
    {
        Note::from_wide_semitone_value(self.wide_semitone_value() + semitones)
    }

    /// Whether this note is lower than `other`: notes are ordered by their
    /// semitone counts.
    pub fn is_below(self, other: Note) -> (below: bool)
        ensures
            below == (self.semitones() < other.semitones()),
    {
        self.wide_semitone_value() < other.wide_semitone_value()
    }

    /// The note of a semitone count of any width whose octave fits.
    pub fn from_wide_semitone_value(n: i64) -> (note: Note)
        requires
            representable(n as int),
        ensures
            note == note_of(n as int),
    {
        let octave = octave_of_semitones(n);
        Note { note: Key::from_ordinal(ordinal_of_semitones(n)), octave: octave as i32 }
    }
}

/// Reducing an ordinal gives back the pitch class it belongs to, and the
/// ordinal of the pitch class of any integer is that integer modulo 12.
pub proof fn lemma_key_of_ordinal(key: Key, n: int)
    ensures
        key_of(key.ordinal()) == key,
        key_of(n).ordinal() == n % 12,
        0 <= key.ordinal() < 12,
{
}

/// Pitch classes repeat every twelve semitones.
pub proof fn lemma_key_period(n: int)
    ensures
        key_of(n) == key_of(n + 12),
{
    assert((n + 12) % 12 == n % 12);
}

/// Taking a note to its semitone count and back gives the same note.
pub proof fn lemma_note_round_trip(note: Note)
    ensures
        representable(note.semitones()),
        note_of(note.semitones()) == note,
{
    let n = note.semitones();
    assert(n / 12 == note.octave as int);
    assert(n % 12 == note.note.ordinal());
}

/// Taking a semitone count to its note and back gives the same count,
/// whenever the octave can be written down.
pub proof fn lemma_semitones_round_trip(n: int)
    requires
        representable(n),
    ensures
        note_of(n).semitones() == n,
{
}

/// Two notes are equal exactly when their semitone counts are.
pub proof fn lemma_semitones_identify_note(a: Note, b: Note)
    ensures
        a.semitones() == b.semitones() <==> a == b,
{
    lemma_note_round_trip(a);
    lemma_note_round_trip(b);
}

/// Twelve semitones up is the same pitch class, one octave higher.
pub proof fn lemma_octave_up(n: int)
    requires
        representable(n),
        representable(n + 12),
    ensures
        note_of(n + 12).note == note_of(n).note,
        note_of(n + 12).octave == note_of(n).octave + 1,
{
    assert((n + 12) % 12 == n % 12);
    assert((n + 12) / 12 == n / 12 + 1);
}

} // verus!

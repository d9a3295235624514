use fretboard::scale::LISTED_OCTAVES;
use fretboard::{get_notes_in_scale, is_note_in_scale, Key, Note, Scale};

const ALL_KEYS: [Key; 12] = [
    Key::C,
    Key::Cs,
    Key::D,
    Key::Ds,
    Key::E,
    Key::F,
    Key::Fs,
    Key::G,
    Key::Gs,
    Key::A,
    Key::As,
    Key::B,
];

const ALL_SCALES: [Scale; 6] = [
    Scale::Major,
    Scale::NaturalMinor,
    Scale::MajorPentatonic,
    Scale::MinorPentatonic,
    Scale::MajorBlues,
    Scale::MinorBlues,
];

#[test]
fn scale_numbers() {
    for (i, scale) in ALL_SCALES.iter().enumerate() {
        assert_eq!(scale.to_int(), i as i32 + 1);
        assert_eq!(Scale::from_int(i as i32 + 1), *scale);
    }
    assert_eq!(Scale::from_int(0), Scale::Major);
    assert_eq!(Scale::from_int(7), Scale::Major);
    assert_eq!(Scale::from_int(-3), Scale::Major);
    assert_eq!(Scale::from_int(i32::MAX), Scale::Major);
}

#[test]
fn scale_names() {
    let names: Vec<&str> = ALL_SCALES.iter().map(|s| s.name()).collect();
    assert_eq!(
        names,
        vec![
            "Major",
            "Natural Minor",
            "Major Pentatonic",
            "Minor Pentatonic",
            "Major Blues",
            "Minor Blues"
        ]
    );
}

#[test]
fn interval_tables() {
    assert_eq!(Scale::Major.intervals(), [0, 2, 4, 5, 7, 9, 11]);
    assert_eq!(Scale::NaturalMinor.intervals(), [0, 2, 3, 5, 7, 8, 10]);
    assert_eq!(Scale::MajorPentatonic.intervals(), [0, 2, 4, 7, 9]);
    assert_eq!(Scale::MinorPentatonic.intervals(), [0, 3, 5, 7, 10]);
    assert_eq!(Scale::MajorBlues.intervals(), [0, 3, 4, 7, 9]);
    assert_eq!(Scale::MinorBlues.intervals(), [0, 3, 5, 6, 7, 10]);
}

#[test]
fn c_major_is_the_naturals_in_any_octave() {
    let naturals = [Key::C, Key::D, Key::E, Key::F, Key::G, Key::A, Key::B];
    for octave in [-2, 0, 1, 4, 9, i32::MAX, i32::MIN] {
        for key in ALL_KEYS {
            let note = Note::new(key, octave);
            assert_eq!(is_note_in_scale(note, Key::C, Scale::Major), naturals.contains(&key));
        }
    }
    assert!(!is_note_in_scale(Note::new(Key::Gs, 4), Key::C, Scale::Major));
    assert!(!is_note_in_scale(Note::new(Key::As, 4), Key::C, Scale::Major));
}

#[test]
fn membership_ignores_the_octave() {
    for scale in ALL_SCALES {
        for key in ALL_KEYS {
            for pitch in ALL_KEYS {
                let low = is_note_in_scale(Note::new(pitch, 0), key, scale);
                let high = is_note_in_scale(Note::new(pitch, 7), key, scale);
                let below = is_note_in_scale(Note::new(pitch, -4), key, scale);
                assert_eq!(low, high);
                assert_eq!(low, below);
            }
        }
    }
}

#[test]
fn membership_in_transposed_scales() {
    // A natural minor: A B C D E F G
    let members = [Key::A, Key::B, Key::C, Key::D, Key::E, Key::F, Key::G];
    for pitch in ALL_KEYS {
        assert_eq!(
            is_note_in_scale(Note::new(pitch, 3), Key::A, Scale::NaturalMinor),
            members.contains(&pitch)
        );
    }
    // E minor pentatonic: E G A B D
    let members = [Key::E, Key::G, Key::A, Key::B, Key::D];
    for pitch in ALL_KEYS {
        assert_eq!(
            is_note_in_scale(Note::new(pitch, 2), Key::E, Scale::MinorPentatonic),
            members.contains(&pitch)
        );
    }
    // B minor blues: B D E F F# A
    let members = [Key::B, Key::D, Key::E, Key::F, Key::Fs, Key::A];
    for pitch in ALL_KEYS {
        assert_eq!(
            is_note_in_scale(Note::new(pitch, 2), Key::B, Scale::MinorBlues),
            members.contains(&pitch)
        );
    }
}

#[test]
fn the_root_is_always_a_member() {
    for scale in ALL_SCALES {
        for key in ALL_KEYS {
            assert!(is_note_in_scale(Note::new(key, 3), key, scale));
        }
    }
}

#[test]
fn notes_of_c_major() {
    let notes = get_notes_in_scale(Key::C, Scale::Major);
    assert_eq!(notes.len(), 56);
    assert_eq!(
        &notes[..8],
        &[
            Note::new(Key::C, 0),
            Note::new(Key::D, 0),
            Note::new(Key::E, 0),
            Note::new(Key::F, 0),
            Note::new(Key::G, 0),
            Note::new(Key::A, 0),
            Note::new(Key::B, 0),
            Note::new(Key::C, 1),
        ]
    );
    assert_eq!(notes[55], Note::new(Key::B, 7));
}

#[test]
fn notes_of_a_major_pentatonic_cross_the_octave() {
    let notes = get_notes_in_scale(Key::A, Scale::MajorPentatonic);
    assert_eq!(notes.len(), 40);
    assert_eq!(
        &notes[..6],
        &[
            Note::new(Key::A, 0),
            Note::new(Key::B, 0),
            Note::new(Key::Cs, 1),
            Note::new(Key::E, 1),
            Note::new(Key::Fs, 1),
            Note::new(Key::A, 1),
        ]
    );
    assert_eq!(notes[39], Note::new(Key::Fs, 8));
}

#[test]
fn listed_notes_belong_to_their_scale() {
    for scale in ALL_SCALES {
        for key in ALL_KEYS {
            let notes = get_notes_in_scale(key, scale);
            assert_eq!(notes.len(), LISTED_OCTAVES * scale.intervals().len());
            for (i, note) in notes.iter().enumerate() {
                assert!(is_note_in_scale(*note, key, scale));
                let len = scale.intervals().len();
                let expected =
                    key.to_int() + scale.intervals()[i % len] + 12 * (i / len) as i32;
                assert_eq!(note.semitone_value(), expected);
            }
        }
    }
}

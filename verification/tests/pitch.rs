use fretboard::frequency::{concert_pitch, semitones_above_reference, semitones_between};
use fretboard::pitch::{octave_of_semitones, ordinal_of_semitones};
use fretboard::text::{push_decimal, push_signed_decimal};
use fretboard::{Key, Note};

const ALL_KEYS: [Key; 12] = [
    Key::C,
    Key::Cs,
    Key::D,
    Key::Ds,
    Key::E,
    Key::F,
    Key::Fs,
    Key::G,
    Key::Gs,
    Key::A,
    Key::As,
    Key::B,
];

#[test]
fn key_from_int_uses_floor_modulo_for_negative_values() {
    assert_eq!(Key::from_int(-1), Key::B);
    assert_eq!(Key::from_int(-2), Key::As);
    assert_eq!(Key::from_int(-12), Key::C);
    assert_eq!(Key::from_int(-13), Key::B);
    assert_eq!(Key::from_int(i32::MIN), Key::E);
    assert_eq!(Key::from_int(i32::MAX), Key::G);
}

#[test]
fn key_from_int_has_period_twelve() {
    for n in -40..40 {
        assert_eq!(Key::from_int(n), Key::from_int(n + 12));
    }
    assert_eq!(Key::from_int(12), Key::C);
    assert_eq!(Key::from_int(23), Key::B);
}

#[test]
fn key_ordinals_round_trip() {
    for (i, key) in ALL_KEYS.iter().enumerate() {
        assert_eq!(key.to_int(), i as i32);
        assert_eq!(Key::from_int(i as i32), *key);
        assert_eq!(Key::from_ordinal(i as i64), *key);
    }
}

#[test]
fn key_names() {
    let names: Vec<&str> = ALL_KEYS.iter().map(|k| k.name()).collect();
    assert_eq!(names, vec!["C", "C#", "D", "D#", "E", "F", "F#", "G", "G#", "A", "A#", "B"]);
}

#[test]
fn floor_quotient_and_remainder() {
    assert_eq!(ordinal_of_semitones(0), 0);
    assert_eq!(ordinal_of_semitones(11), 11);
    assert_eq!(ordinal_of_semitones(12), 0);
    assert_eq!(ordinal_of_semitones(-1), 11);
    assert_eq!(ordinal_of_semitones(-12), 0);
    assert_eq!(ordinal_of_semitones(-13), 11);
    assert_eq!(ordinal_of_semitones(i64::MIN), 4);
    assert_eq!(octave_of_semitones(0), 0);
    assert_eq!(octave_of_semitones(11), 0);
    assert_eq!(octave_of_semitones(12), 1);
    assert_eq!(octave_of_semitones(-1), -1);
    assert_eq!(octave_of_semitones(-12), -1);
    assert_eq!(octave_of_semitones(-13), -2);
    assert_eq!(octave_of_semitones(i64::MIN), -768614336404564651);
    assert_eq!(octave_of_semitones(i64::MAX), 768614336404564650);
}

#[test]
fn note_new_keeps_its_parts() {
    let note = Note::new(Key::Fs, 3);
    assert_eq!(note.note, Key::Fs);
    assert_eq!(note.octave, 3);
    assert_eq!(note, Note { note: Key::Fs, octave: 3 });
}

#[test]
fn note_names() {
    assert_eq!(Note::new(Key::E, 2).name(), "E2");
    assert_eq!(Note::new(Key::Cs, 4).name(), "C#4");
    assert_eq!(Note::new(Key::A, 0).name(), "A0");
    assert_eq!(Note::new(Key::B, 10).name(), "B10");
    assert_eq!(Note::new(Key::G, -1).name(), "G-1");
    assert_eq!(Note::new(Key::C, i32::MAX).name(), "C2147483647");
    assert_eq!(Note::new(Key::As, i32::MIN).name(), "A#-2147483648");
}

#[test]
fn decimal_text() {
    let mut out = String::from("x");
    push_decimal(&mut out, 0);
    assert_eq!(out, "x0");
    push_decimal(&mut out, 907);
    assert_eq!(out, "x0907");
    let mut out = String::new();
    push_decimal(&mut out, u64::MAX);
    assert_eq!(out, "18446744073709551615");
    let mut out = String::new();
    push_signed_decimal(&mut out, -45);
    push_signed_decimal(&mut out, 10);
    assert_eq!(out, "-4510");
    let mut out = String::new();
    push_signed_decimal(&mut out, i64::MIN);
    assert_eq!(out, "-9223372036854775808");
}

#[test]
fn semitone_values() {
    assert_eq!(Note::new(Key::C, 0).semitone_value(), 0);
    assert_eq!(Note::new(Key::A, 4).semitone_value(), 57);
    assert_eq!(Note::new(Key::E, 2).semitone_value(), 28);
    assert_eq!(Note::new(Key::B, -1).semitone_value(), -1);
    assert_eq!(Note::new(Key::C, -1).semitone_value(), -12);
    assert_eq!(Note::new(Key::G, 178956970).semitone_value(), i32::MAX);
    assert_eq!(Note::new(Key::E, -178956971).semitone_value(), i32::MIN);
    assert_eq!(Note::new(Key::B, i32::MAX).wide_semitone_value(), 12 * (i32::MAX as i64) + 11);
    assert_eq!(Note::new(Key::C, i32::MIN).wide_semitone_value(), 12 * (i32::MIN as i64));
}

#[test]
fn notes_from_semitone_values() {
    assert_eq!(Note::from_semitone_value(0), Note::new(Key::C, 0));
    assert_eq!(Note::from_semitone_value(57), Note::new(Key::A, 4));
    assert_eq!(Note::from_semitone_value(-1), Note::new(Key::B, -1));
    assert_eq!(Note::from_semitone_value(-12), Note::new(Key::C, -1));
    assert_eq!(Note::from_semitone_value(-13), Note::new(Key::B, -2));
    assert_eq!(Note::from_semitone_value(i32::MAX), Note::new(Key::G, 178956970));
    assert_eq!(Note::from_semitone_value(i32::MIN), Note::new(Key::E, -178956971));
    assert_eq!(
        Note::from_wide_semitone_value(12 * (i32::MAX as i64) + 11),
        Note::new(Key::B, i32::MAX)
    );
}

#[test]
fn semitone_round_trip() {
    for octave in -3..9 {
        for key in ALL_KEYS {
            let note = Note::new(key, octave);
            assert_eq!(Note::from_semitone_value(note.semitone_value()), note);
            assert_eq!(Note::from_wide_semitone_value(note.wide_semitone_value()), note);
        }
    }
    for n in -100..200 {
        assert_eq!(Note::from_semitone_value(n).semitone_value(), n);
    }
}

#[test]
fn equal_semitone_values_mean_equal_notes() {
    for a in -30..30 {
        for b in -30..30 {
            let x = Note::from_semitone_value(a);
            let y = Note::from_semitone_value(b);
            assert_eq!(x == y, a == b);
        }
    }
}

#[test]
fn distance_from_the_reference_pitch() {
    assert_eq!(concert_pitch(), Note::new(Key::A, 4));
    assert_eq!(semitones_above_reference(Note::new(Key::A, 4)), 0);
    assert_eq!(semitones_above_reference(Note::new(Key::C, 4)), -9);
    assert_eq!(semitones_above_reference(Note::new(Key::A, 5)), 12);
    assert_eq!(semitones_above_reference(Note::new(Key::E, 2)), -29);
    assert_eq!(semitones_between(Note::new(Key::E, 4), Note::new(Key::E, 2)), 24);
    assert_eq!(semitones_between(Note::new(Key::C, 0), Note::new(Key::B, 0)), -11);
    assert_eq!(
        semitones_between(Note::new(Key::B, i32::MAX), Note::new(Key::C, i32::MIN)),
        12 * (i32::MAX as i64 - i32::MIN as i64) + 11
    );
}

#[test]
fn frequencies_of_octaves_double() {
    let hz = |note: Note| 440.0_f64 * 2.0_f64.powf(semitones_above_reference(note) as f64 / 12.0);
    assert!((hz(Note::new(Key::A, 5)) - 880.0).abs() < 1e-9);
    assert!((hz(Note::new(Key::A, 3)) - 220.0).abs() < 1e-9);
    assert!((hz(Note::new(Key::E, 2)) - 82.4069).abs() < 1e-3);
    assert!(hz(Note::new(Key::C, -5)) > 0.0);
}

#[test]
fn transposition() {
    let e2 = Note::new(Key::E, 2);
    assert_eq!(e2.transposed(0), e2);
    assert_eq!(e2.transposed(5), Note::new(Key::A, 2));
    assert_eq!(e2.transposed(12), Note::new(Key::E, 3));
    assert_eq!(e2.transposed(-5), Note::new(Key::B, 1));
    assert_eq!(e2.transposed(-28), Note::new(Key::C, 0));
    assert_eq!(e2.transposed(-29), Note::new(Key::B, -1));
    assert_eq!(e2.transposed(-29).transposed(29), e2);
}

#[test]
fn notes_are_ordered_by_semitone_value() {
    assert!(Note::new(Key::B, 2).is_below(Note::new(Key::C, 3)));
    assert!(!Note::new(Key::C, 3).is_below(Note::new(Key::B, 2)));
    assert!(!Note::new(Key::C, 3).is_below(Note::new(Key::C, 3)));
    assert!(Note::new(Key::C, 3).is_below(Note::new(Key::Cs, 3)));
    assert!(Note::new(Key::B, -1).is_below(Note::new(Key::C, 0)));
    assert!(Note::new(Key::B, i32::MIN).is_below(Note::new(Key::C, i32::MAX)));
    for a in -30..30 {
        for b in -30..30 {
            let x = Note::from_semitone_value(a);
            let y = Note::from_semitone_value(b);
            assert_eq!(x.is_below(y), a < b);
        }
    }
}

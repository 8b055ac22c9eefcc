use notation::theory::{parse_pitch, ChordNumber, ChordQuality, Direction, Mode, PitchClass};
use notation::tokens::{
    match_chord_number, match_mode, match_quality, match_tonic, parse_direction, spells_word,
    EntryError,
};

#[test]
fn tonic_sharp_spellings_in_every_case() {
    for t in ["Cs", "cs", "CS", "cS", "C#", "c#"] {
        assert_eq!(match_tonic(t), Ok(PitchClass::Cs), "{}", t);
    }
}

#[test]
fn tonic_every_natural_letter() {
    let expected = [
        ("C", PitchClass::C),
        ("d", PitchClass::D),
        ("E", PitchClass::E),
        ("f", PitchClass::F),
        ("G", PitchClass::G),
        ("a", PitchClass::A),
        ("B", PitchClass::B),
    ];
    for (t, p) in expected {
        assert_eq!(match_tonic(t), Ok(p));
    }
}

#[test]
fn tonic_sharps_and_flats_wrap_around() {
    assert_eq!(match_tonic("Bs"), Ok(PitchClass::C));
    assert_eq!(match_tonic("Es"), Ok(PitchClass::F));
    assert_eq!(match_tonic("Db"), Ok(PitchClass::Cs));
    assert_eq!(match_tonic("Cb"), Ok(PitchClass::B));
    assert_eq!(match_tonic("As"), Ok(PitchClass::As));
    assert_eq!(match_tonic("gs"), Ok(PitchClass::Gs));
}

#[test]
fn tonic_outside_table_is_tonic_error() {
    for t in ["Z", "", "H", "Css", "C ", " C", "Cx", "major"] {
        assert_eq!(match_tonic(t), Err(EntryError::TonicError), "{:?}", t);
    }
}

#[test]
fn parse_pitch_is_exact() {
    assert_eq!(parse_pitch("Fs"), Some(PitchClass::Fs));
    assert_eq!(parse_pitch("Fsharp"), None);
}

#[test]
fn modes_in_any_case() {
    let expected = [
        ("Ionian", Mode::Ionian),
        ("dorian", Mode::Dorian),
        ("PHRYGIAN", Mode::Phrygian),
        ("lydian", Mode::Lydian),
        ("MixoLydian", Mode::Mixolydian),
        ("aeolian", Mode::Aeolian),
        ("Locrian", Mode::Locrian),
    ];
    for (t, m) in expected {
        assert_eq!(match_mode(t), Ok(m));
    }
}

#[test]
fn mode_outside_table_is_mode_error() {
    for t in ["", "ion", "ionianx", "major", "minor", "harmonic minor", "Z"] {
        assert_eq!(match_mode(t), Err(EntryError::ModeError), "{:?}", t);
    }
}

#[test]
fn qualities_in_any_case() {
    let expected = [
        ("major", ChordQuality::Major),
        ("Minor", ChordQuality::Minor),
        ("DIMINISHED", ChordQuality::Diminished),
        ("augmented", ChordQuality::Augmented),
        ("HalfDiminished", ChordQuality::HalfDiminished),
        ("dominant", ChordQuality::Dominant),
        ("Suspended2", ChordQuality::Suspended2),
        ("suspended4", ChordQuality::Suspended4),
    ];
    for (t, q) in expected {
        assert_eq!(match_quality(t), Ok(q));
    }
}

#[test]
fn quality_outside_table_is_quality_error_not_major() {
    for t in ["", "maj", "M", "majorly", "sus2", "Z"] {
        assert_eq!(match_quality(t), Err(EntryError::QualityError), "{:?}", t);
    }
}

#[test]
fn chord_numbers_in_any_case() {
    let expected = [
        ("triad", ChordNumber::Triad),
        ("Seventh", ChordNumber::Seventh),
        ("MAJORSEVENTH", ChordNumber::MajorSeventh),
        ("ninth", ChordNumber::Ninth),
        ("Eleventh", ChordNumber::Eleventh),
        ("thirteenth", ChordNumber::Thirteenth),
    ];
    for (t, n) in expected {
        assert_eq!(match_chord_number(t), Ok(n));
    }
}

#[test]
fn chord_number_outside_table_is_number_error() {
    for t in ["", "7", "fifth", "seventhh", "major seventh", "Z"] {
        assert_eq!(match_chord_number(t), Err(EntryError::ChordNumberError), "{:?}", t);
    }
}

#[test]
fn direction_tokens() {
    assert_eq!(parse_direction("ASC"), (Direction::Ascending, true));
    assert_eq!(parse_direction("asc"), (Direction::Ascending, true));
    assert_eq!(parse_direction("Asc"), (Direction::Ascending, true));
    assert_eq!(parse_direction("DESC"), (Direction::Descending, true));
    assert_eq!(parse_direction("desc"), (Direction::Descending, true));
}

#[test]
fn direction_long_s_uppercases_to_s() {
    assert_eq!(parse_direction("de\u{17F}c"), (Direction::Descending, true));
    assert_eq!(parse_direction("a\u{17F}c"), (Direction::Ascending, true));
    assert_eq!(parse_direction("DE\u{17F}C"), (Direction::Descending, true));
    assert_eq!(parse_direction("\u{17F}"), (Direction::Ascending, false));
}

#[test]
fn unknown_direction_is_ascending_with_warning() {
    for t in ["", "up", "down", "descending", "Z"] {
        assert_eq!(parse_direction(t), (Direction::Ascending, false), "{:?}", t);
    }
}

#[test]
fn spells_word_ignores_ascii_case_only() {
    assert!(spells_word("DoRiAn", "dorian"));
    assert!(!spells_word("dorian", "dorians"));
    assert!(!spells_word("dorian!", "dorian"));
    assert!(!spells_word("dorian", "Dorian"));
}

#[test]
fn invalid_tonic_in_strict_mode() {
    assert_eq!(match_tonic("Z"), Err(EntryError::TonicError));
}

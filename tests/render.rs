use notation::api::{get_chord, intstructions, render_chord_listing, render_scale_listing, scale};
use notation::progression::{ChordProgression, ChordSpec};
use notation::render::{
    progression_destination, push_decimal, render_notes, render_progression, write_progression,
};
use notation::theory::{
    chord_as_vector, pitch_display, scale_as_vector, ChordNumber, ChordQuality, Direction, Mode,
    Note, PitchClass,
};
use notation::tokens::EntryError;

fn n(pitch: PitchClass, octave: u8) -> Note {
    Note::new(pitch, octave)
}

#[test]
fn pitch_display_names() {
    assert_eq!(pitch_display(PitchClass::C), "C");
    assert_eq!(pitch_display(PitchClass::Cs), "C#");
    assert_eq!(pitch_display(PitchClass::As), "A#");
    assert_eq!(pitch_display(PitchClass::B), "B");
}

#[test]
fn decimal_digits() {
    let mut s = String::from("x");
    push_decimal(&mut s, 0);
    push_decimal(&mut s, 7);
    push_decimal(&mut s, 10);
    push_decimal(&mut s, 1234);
    assert_eq!(s, "x07101234");
}

#[test]
fn chord_c_major_triad() {
    let v = chord_as_vector(PitchClass::C, ChordQuality::Major, ChordNumber::Triad);
    assert_eq!(v, vec![n(PitchClass::C, 4), n(PitchClass::E, 4), n(PitchClass::G, 4)]);
}

#[test]
fn chord_a_minor_seventh_crosses_octave() {
    let v = chord_as_vector(PitchClass::A, ChordQuality::Minor, ChordNumber::Seventh);
    assert_eq!(
        v,
        vec![n(PitchClass::A, 4), n(PitchClass::C, 5), n(PitchClass::E, 5), n(PitchClass::G, 5)]
    );
}

#[test]
fn chord_note_counts_by_number() {
    let cases = [
        (ChordQuality::Major, ChordNumber::Triad, 3),
        (ChordQuality::Suspended4, ChordNumber::Triad, 3),
        (ChordQuality::Major, ChordNumber::Seventh, 4),
        (ChordQuality::Dominant, ChordNumber::Seventh, 4),
        (ChordQuality::HalfDiminished, ChordNumber::Seventh, 4),
        (ChordQuality::Minor, ChordNumber::MajorSeventh, 4),
        (ChordQuality::Augmented, ChordNumber::MajorSeventh, 4),
        (ChordQuality::Dominant, ChordNumber::Ninth, 5),
        (ChordQuality::Major, ChordNumber::Ninth, 5),
        (ChordQuality::Minor, ChordNumber::Eleventh, 6),
        (ChordQuality::Dominant, ChordNumber::Eleventh, 6),
        (ChordQuality::Major, ChordNumber::Thirteenth, 7),
        (ChordQuality::Minor, ChordNumber::Thirteenth, 7),
    ];
    for (q, num, count) in cases {
        assert_eq!(chord_as_vector(PitchClass::D, q, num).len(), count, "{:?} {:?}", q, num);
    }
}

#[test]
fn undefined_chord_falls_back_to_major_triad() {
    let v = chord_as_vector(PitchClass::C, ChordQuality::Minor, ChordNumber::Ninth);
    assert_eq!(v, vec![n(PitchClass::C, 4), n(PitchClass::E, 4), n(PitchClass::G, 4)]);
}

#[test]
fn scale_c_ionian_ascending() {
    let v = scale_as_vector(PitchClass::C, Mode::Ionian, Direction::Ascending);
    assert_eq!(
        v,
        vec![n(PitchClass::C, 4), n(PitchClass::D, 4), n(PitchClass::E, 4), n(PitchClass::F, 4), n(PitchClass::G, 4), n(PitchClass::A, 4), n(PitchClass::B, 4), n(PitchClass::C, 5)]
    );
}

#[test]
fn scale_c_ionian_descending() {
    let v = scale_as_vector(PitchClass::C, Mode::Ionian, Direction::Descending);
    assert_eq!(
        v,
        vec![n(PitchClass::C, 4), n(PitchClass::B, 3), n(PitchClass::A, 3), n(PitchClass::G, 3), n(PitchClass::F, 3), n(PitchClass::E, 3), n(PitchClass::D, 3), n(PitchClass::C, 3)]
    );
}

#[test]
fn scale_d_dorian_ascending() {
    let v = scale_as_vector(PitchClass::D, Mode::Dorian, Direction::Ascending);
    assert_eq!(
        v,
        vec![n(PitchClass::D, 4), n(PitchClass::E, 4), n(PitchClass::F, 4), n(PitchClass::G, 4), n(PitchClass::A, 4), n(PitchClass::B, 4), n(PitchClass::C, 5), n(PitchClass::D, 5)]
    );
}

#[test]
fn notes_file_text() {
    let v = vec![n(PitchClass::C, 4), n(PitchClass::Fs, 4), n(PitchClass::G, 10)];
    assert_eq!(render_notes(&v), "C,4\nF#,4\nG,10\n");
    assert_eq!(render_notes(&vec![]), "");
}

#[test]
fn empty_progression_file() {
    let p = ChordProgression::new(String::from("empty"));
    assert_eq!(write_progression(&p), "0\n-\n");
}

#[test]
fn progression_scenario_two_chords() {
    let mut p = ChordProgression::new(String::from("test"));
    p.add_chord(ChordSpec::new(PitchClass::C, ChordQuality::Major, ChordNumber::Triad));
    p.add_chord(ChordSpec::new(PitchClass::A, ChordQuality::Minor, ChordNumber::Seventh));
    assert_eq!(
        write_progression(&p),
        "2\n-\n3\nC,4\nE,4\nG,4\n-\n4\nA,4\nC,5\nE,5\nG,5\n"
    );
    assert_eq!(progression_destination(p.get_name()), "../progressions/test.txt");
}

#[test]
fn progression_single_chord_has_no_trailing_separator() {
    let p = ChordProgression::from_chords(
        String::from("one"),
        vec![ChordSpec::new(PitchClass::G, ChordQuality::Major, ChordNumber::Triad)],
    );
    assert_eq!(write_progression(&p), "1\n-\n3\nG,4\nB,4\nD,5\n");
}

#[test]
fn progression_blocks_and_separators() {
    let blocks = vec![vec![n(PitchClass::C, 4)], vec![], vec![n(PitchClass::D, 2), n(PitchClass::E, 2)]];
    assert_eq!(render_progression(&blocks), "3\n-\n1\nC,4\n-\n0\n-\n2\nD,2\nE,2\n");
    assert_eq!(render_progression(&vec![]), "0\n-\n");
}

#[test]
fn scale_listing_text() {
    assert_eq!(render_scale_listing(&vec![n(PitchClass::C, 4), n(PitchClass::Ds, 4)]), "C\nD#\n");
}

#[test]
fn chord_listing_text() {
    assert_eq!(render_chord_listing(&vec![n(PitchClass::C, 4), n(PitchClass::E, 5)]), "2\nC, 4\nE, 5\n");
}

#[test]
fn scale_route_c_ionian() {
    let listing = scale("C", "Ionian", "asc").unwrap();
    assert_eq!(listing, "C\nD\nE\nF\nG\nA\nB\n");
    assert_eq!(listing.lines().count(), 7);
    assert!(!listing.ends_with("\n\n"));
}

#[test]
fn scale_route_errors() {
    assert_eq!(scale("Z", "Ionian", "asc"), Err(EntryError::TonicError));
    assert_eq!(scale("C", "Ionia", "asc"), Err(EntryError::ModeError));
    assert_eq!(scale("Z", "Ionia", "asc"), Err(EntryError::TonicError));
}

#[test]
fn scale_route_unknown_direction_ascends() {
    assert_eq!(scale("c", "ionian", "sideways"), scale("C", "Ionian", "ASC"));
}

#[test]
fn scale_route_descending_and_long_s() {
    assert_eq!(scale("C", "Ionian", "desc"), Ok(String::from("C\nB\nA\nG\nF\nE\nD\n")));
    assert_eq!(scale("C", "Ionian", "de\u{17F}c"), scale("C", "Ionian", "DESC"));
    assert_eq!(scale("C", "Ionian", "a\u{17F}c"), scale("C", "Ionian", "asc"));
}

#[test]
fn chord_route_c_major_triad() {
    assert_eq!(get_chord("C", "major", "triad"), Ok(String::from("3\nC, 4\nE, 4\nG, 4\n")));
}

#[test]
fn chord_route_errors() {
    assert_eq!(get_chord("Z", "major", "triad"), Err(EntryError::TonicError));
    assert_eq!(get_chord("C", "majr", "triad"), Err(EntryError::QualityError));
    assert_eq!(get_chord("C", "major", "fifth"), Err(EntryError::ChordNumberError));
}

#[test]
fn instructions_text() {
    assert!(intstructions().starts_with("Welcome to the Rust Music Theory API!"));
    assert!(intstructions().contains("/chord/<root>/<quality>/<extension>"));
}

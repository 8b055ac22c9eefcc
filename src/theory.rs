//! The closed vocabularies of pitch classes, modes and chords, and the notes
//! that the music-theory engine (the `rust_music_theory` crate) expands them to.
use vstd::prelude::*;
use rust_music_theory::chord::Chord;
use rust_music_theory::note::Notes;
use rust_music_theory::scale::{Scale, ScaleType};
use rust_music_theory::scale::Mode as EngineMode;
use rust_music_theory::scale::Direction as EngineDirection;
use rust_music_theory::chord::Quality as EngineQuality;
use rust_music_theory::chord::Number as EngineNumber;
use rust_music_theory::note::PitchClass as EnginePitch;

verus! {

/// One of the twelve chromatic pitch classes, sharps standing for enharmonic flats.
#[derive(Debug, Clone, Copy, PartialEq, Eq, Structural)]
pub enum PitchClass {
    C,
    Cs,
    D,
    Ds,
    E,
    F,
    Fs,
    G,
    Gs,
    A,
    As,
    B,
}

/// One of the seven modes of the major scale.
#[derive(Debug, Clone, Copy, PartialEq, Eq, Structural)]
pub enum Mode {
    Ionian,
    Dorian,
    Phrygian,
    Lydian,
    Mixolydian,
    Aeolian,
    Locrian,
}

/// Which way a scale is walked from its tonic.
#[derive(Debug, Clone, Copy, PartialEq, Eq, Structural)]
pub enum Direction {
    Ascending,
    Descending,
}

/// The character of a chord.
#[derive(Debug, Clone, Copy, PartialEq, Eq, Structural)]
pub enum ChordQuality {
    Major,
    Minor,
    Diminished,
    Augmented,
    HalfDiminished,
    Dominant,
    Suspended2,
    Suspended4,
}

/// How far a chord is stacked: from a triad up to a thirteenth.
#[derive(Debug, Clone, Copy, PartialEq, Eq, Structural)]
pub enum ChordNumber {
    Triad,
    Seventh,
    MajorSeventh,
    Ninth,
    Eleventh,
    Thirteenth,
}

/// A pitch class in a given octave.
#[derive(Debug, Clone, Copy, PartialEq, Eq, Structural)]
pub struct Note {
    pub pitch: PitchClass,
    pub octave: u8,
}

/// The pitch class `n` semitones above C, counted modulo 12.
pub open spec fn pitch_at(n: nat) -> PitchClass {
    let k = n % 12;
    if k == 0 { PitchClass::C }
    else if k == 1 { PitchClass::Cs }
    else if k == 2 { PitchClass::D }
    else if k == 3 { PitchClass::Ds }
    else if k == 4 { PitchClass::E }
    else if k == 5 { PitchClass::F }
    else if k == 6 { PitchClass::Fs }
    else if k == 7 { PitchClass::G }
    else if k == 8 { PitchClass::Gs }
    else if k == 9 { PitchClass::A }
    else if k == 10 { PitchClass::As }
    else { PitchClass::B }
}

/// Semitones from C up to the pitch class.
pub open spec fn semitones(p: PitchClass) -> nat {
    match p {
        PitchClass::C => 0,
        PitchClass::Cs => 1,
        PitchClass::D => 2,
        PitchClass::Ds => 3,
        PitchClass::E => 4,
        PitchClass::F => 5,
        PitchClass::Fs => 6,
        PitchClass::G => 7,
        PitchClass::Gs => 8,
        PitchClass::A => 9,
        PitchClass::As => 10,
        PitchClass::B => 11,
    }
}

/// How the engine displays a pitch class.
pub open spec fn pitch_name(p: PitchClass) -> Seq<char> {
    match p {
        PitchClass::C => seq!['C'],
        PitchClass::Cs => seq!['C', '#'],
        PitchClass::D => seq!['D'],
        PitchClass::Ds => seq!['D', '#'],
        PitchClass::E => seq!['E'],
        PitchClass::F => seq!['F'],
        PitchClass::Fs => seq!['F', '#'],
        PitchClass::G => seq!['G'],
        PitchClass::Gs => seq!['G', '#'],
        PitchClass::A => seq!['A'],
        PitchClass::As => seq!['A', '#'],
        PitchClass::B => seq!['B'],
    }
}

/// The pitch class of a letter, in either case.
pub open spec fn letter_pitch(c: char) -> Option<PitchClass> {
    if c == 'C' || c == 'c' { Some(PitchClass::C) }
    else if c == 'D' || c == 'd' { Some(PitchClass::D) }
    else if c == 'E' || c == 'e' { Some(PitchClass::E) }
    else if c == 'F' || c == 'f' { Some(PitchClass::F) }
    else if c == 'G' || c == 'g' { Some(PitchClass::G) }
    else if c == 'A' || c == 'a' { Some(PitchClass::A) }
    else if c == 'B' || c == 'b' { Some(PitchClass::B) }
    else { None }
}

pub open spec fn is_sharp_sign(c: char) -> bool {
    c == '#' || c == 's' || c == 'S' || c == '\u{266F}'
}

pub open spec fn is_flat_sign(c: char) -> bool {
    c == 'b' || c == '\u{266D}'
}

/// The pitch class that a whole token names: a letter, optionally followed by
/// one sharp sign (a semitone up) or one flat sign (a semitone down).
pub open spec fn pitch_token(s: Seq<char>) -> Option<PitchClass> {
    if s.len() == 1 {
        letter_pitch(s[0])
    } else if s.len() == 2 && letter_pitch(s[0]) is Some {
        let p = letter_pitch(s[0])->0;
        if is_sharp_sign(s[1]) {
            Some(pitch_at(semitones(p) + 1))
        } else if is_flat_sign(s[1]) {
            Some(pitch_at(semitones(p) + 11))
        } else {
            None
        }
    } else {
        None
    }
}

/// The number of intervals that the engine stacks for each number.
pub open spec fn number_size(n: ChordNumber) -> nat {
    match n {
        ChordNumber::Triad => 3,
        ChordNumber::Seventh => 4,
        ChordNumber::MajorSeventh => 4,
        ChordNumber::Ninth => 5,
        ChordNumber::Eleventh => 6,
        ChordNumber::Thirteenth => 7,
    }
}

/// The combinations of quality and number that the engine has an interval table for.
pub open spec fn engine_defines(q: ChordQuality, n: ChordNumber) -> bool {
    match n {
        ChordNumber::Triad => !(q is HalfDiminished || q is Dominant),
        ChordNumber::Seventh => !(q is Suspended2 || q is Suspended4),
        ChordNumber::MajorSeventh => q is Augmented || q is Minor,
        ChordNumber::Ninth => q is Dominant || q is Major,
        ChordNumber::Eleventh | ChordNumber::Thirteenth =>
            q is Dominant || q is Major || q is Minor,
    }
}

/// How many notes the engine gives a chord: undefined combinations fall back
/// to a major triad.
pub open spec fn chord_size(q: ChordQuality, n: ChordNumber) -> nat {
    if engine_defines(q, n) { number_size(n) } else { 3 }
}

impl PitchClass {
    /// The pitch class `n` semitones above C, counted modulo 12.
    pub fn from_semitone(n: u8) -> (r: PitchClass)
        ensures
            r == pitch_at(n as nat),
    {
        let k = n % 12;
        if k == 0 { PitchClass::C }
        else if k == 1 { PitchClass::Cs }
        else if k == 2 { PitchClass::D }
        else if k == 3 { PitchClass::Ds }
        else if k == 4 { PitchClass::E }
        else if k == 5 { PitchClass::F }
        else if k == 6 { PitchClass::Fs }
        else if k == 7 { PitchClass::G }
        else if k == 8 { PitchClass::Gs }
        else if k == 9 { PitchClass::A }
        else if k == 10 { PitchClass::As }
        else { PitchClass::B }
    }

    /// Semitones from C up to this pitch class.
    pub fn semitone(self) -> (r: u8)
        ensures
            r as nat == semitones(self),
            r < 12,
    {
        match self {
            PitchClass::C => 0,
            PitchClass::Cs => 1,
            PitchClass::D => 2,
            PitchClass::Ds => 3,
            PitchClass::E => 4,
            PitchClass::F => 5,
            PitchClass::Fs => 6,
            PitchClass::G => 7,
            PitchClass::Gs => 8,
            PitchClass::A => 9,
            PitchClass::As => 10,
            PitchClass::B => 11,
        }
    }
}

impl Note {
    pub fn new(pitch: PitchClass, octave: u8) -> (r: Note)
        ensures
            r == (Note { pitch, octave }),
    {
        Note { pitch, octave }
    }
}

/// The notes that the engine gives the chord of this root, quality and number.
pub uninterp spec fn chord_notes_of(root: PitchClass, quality: ChordQuality, number: ChordNumber) -> Seq<Note>;

/// The notes that the engine gives the scale of this tonic, mode and direction.
pub uninterp spec fn scale_notes_of(tonic: PitchClass, mode: Mode, direction: Direction) -> Seq<Note>;

#[verifier::external_type_specification]
#[verifier::external_body]
pub struct ExEngineMode(EngineMode);

#[verifier::external_type_specification]
#[verifier::external_body]
pub struct ExEngineQuality(EngineQuality);

#[verifier::external_type_specification]
#[verifier::external_body]
pub struct ExEngineNumber(EngineNumber);

/// The engine's variant of the same name.
#[verifier::external_body]
fn engine_mode(m: Mode) -> EngineMode {
    match m {
        Mode::Ionian => EngineMode::Ionian,
        Mode::Dorian => EngineMode::Dorian,
        Mode::Phrygian => EngineMode::Phrygian,
        Mode::Lydian => EngineMode::Lydian,
        Mode::Mixolydian => EngineMode::Mixolydian,
        Mode::Aeolian => EngineMode::Aeolian,
        Mode::Locrian => EngineMode::Locrian,
    }
}

/// The engine's variant of the same name.
#[verifier::external_body]
fn engine_quality(q: ChordQuality) -> EngineQuality {
    match q {
        ChordQuality::Major => EngineQuality::Major,
        ChordQuality::Minor => EngineQuality::Minor,
        ChordQuality::Diminished => EngineQuality::Diminished,
        ChordQuality::Augmented => EngineQuality::Augmented,
        ChordQuality::HalfDiminished => EngineQuality::HalfDiminished,
        ChordQuality::Dominant => EngineQuality::Dominant,
        ChordQuality::Suspended2 => EngineQuality::Suspended2,
        ChordQuality::Suspended4 => EngineQuality::Suspended4,
    }
}

/// The engine's variant of the same name.
#[verifier::external_body]
fn engine_number(n: ChordNumber) -> EngineNumber {
    match n {
        ChordNumber::Triad => EngineNumber::Triad,
        ChordNumber::Seventh => EngineNumber::Seventh,
        ChordNumber::MajorSeventh => EngineNumber::MajorSeventh,
        ChordNumber::Ninth => EngineNumber::Ninth,
        ChordNumber::Eleventh => EngineNumber::Eleventh,
        ChordNumber::Thirteenth => EngineNumber::Thirteenth,
    }
}

/// Relies on rust_music_theory's `PitchClass::from_str`: it accepts exactly a
/// letter in either case, optionally followed by one of `#`, `s`, `S`, `♯`
/// (a semitone up) or `b`, `♭` (a semitone down), and nothing else.
#[verifier::external_body]
fn engine_parse_pitch(s: &str) -> (r: Option<PitchClass>)
    ensures
        r == pitch_token(s@),
{
    match EnginePitch::from_str(s) {
        Some(p) => Some(PitchClass::from_semitone(p.into_u8())),
        None => None,
    }
}

/// Relies on rust_music_theory's `Display` for `PitchClass`: the letter, then
/// `#` for a sharp.
#[verifier::external_body]
fn engine_pitch_name(p: PitchClass) -> (r: String)
    ensures
        r@ == pitch_name(p),
{
    EnginePitch::from_u8(p.semitone()).to_string()
}

/// Relies on rust_music_theory's `Chord::new` and `Notes::notes`: the root at
/// octave 4 comes first, then one note per interval of the engine's table for
/// the quality and number, a major triad where the table has no entry.
#[verifier::external_body]
fn engine_chord_notes(root: PitchClass, quality: ChordQuality, number: ChordNumber) -> (r: Vec<Note>)
    ensures
        r@ == chord_notes_of(root, quality, number),
        r@.len() == chord_size(quality, number),
        r@[0] == (Note { pitch: root, octave: 4 }),
{
    let root = EnginePitch::from_u8(root.semitone());
    let chord = Chord::new(root, engine_quality(quality), engine_number(number));
    chord.notes().iter().map(|n| Note::new(PitchClass::from_semitone(n.pitch_class as u8), n.octave)).collect()
}

/// Relies on rust_music_theory's `Scale::new` and `Notes::notes`: a diatonic
/// scale rotated to the mode, from the tonic at octave 4 through its seven
/// steps, which add up to one octave, ending on the tonic at octave 5 going up
/// or octave 3 going down.
#[verifier::external_body]
fn engine_scale_notes(tonic: PitchClass, mode: Mode, direction: Direction) -> (r: Vec<Note>)
    ensures
        r@ == scale_notes_of(tonic, mode, direction),
        r@.len() == 8,
        r@[0] == (Note { pitch: tonic, octave: 4 }),
        r@[7] == (Note { pitch: tonic, octave: if direction is Ascending { 5u8 } else { 3u8 } }),
{
    let m = engine_mode(mode);
    let d = match direction { Direction::Ascending => EngineDirection::Ascending, Direction::Descending => EngineDirection::Descending };
    let tonic = EnginePitch::from_u8(tonic.semitone());
    let scale = Scale::new(ScaleType::from_mode(m), tonic, 4, Some(m), d).unwrap();
    scale.notes().iter().map(|n| Note::new(PitchClass::from_semitone(n.pitch_class as u8), n.octave)).collect()
}

/// The pitch class that a token names, if it names one.
pub fn parse_pitch(token: &str) -> (r: Option<PitchClass>)
    ensures
        r == pitch_token(token@),
{
    engine_parse_pitch(token)
}

/// How the pitch class is written in listings and files.
pub fn pitch_display(p: PitchClass) -> (r: String)
    ensures
        r@ == pitch_name(p),
{
    engine_pitch_name(p)
}

/// The notes of a scale, from the tonic at octave 4 to the tonic an octave
/// above or below.
pub fn scale_as_vector(tonic: PitchClass, mode: Mode, direction: Direction) -> (r: Vec<Note>)
    ensures
        r@ == scale_notes_of(tonic, mode, direction),
        r@.len() == 8,
        r@[0] == (Note { pitch: tonic, octave: 4 }),
        r@[7] == (Note { pitch: tonic, octave: if direction is Ascending { 5u8 } else { 3u8 } }),
{
    engine_scale_notes(tonic, mode, direction)
}

/// The notes of a chord, root first at octave 4.
pub fn chord_as_vector(root: PitchClass, quality: ChordQuality, number: ChordNumber) -> (r: Vec<Note>)
    ensures
        r@ == chord_notes_of(root, quality, number),
        r@.len() == chord_size(quality, number),
        r@[0] == (Note { pitch: root, octave: 4 }),
{
    engine_chord_notes(root, quality, number)
}

/// Every quality gives a triad three notes, and wherever the engine defines a
/// chord its note count grows with the number: four for a seventh or major
/// seventh, five for a ninth, six for an eleventh, seven for a thirteenth.
pub proof fn lemma_chord_size(q: ChordQuality, n: ChordNumber)
    ensures
        n == ChordNumber::Triad ==> chord_size(q, n) == 3,
        engine_defines(q, n) ==> chord_size(q, n) == number_size(n),
        engine_defines(q, ChordNumber::Seventh) ==> chord_size(q, ChordNumber::Seventh) == 4,
        engine_defines(q, ChordNumber::MajorSeventh) ==> chord_size(q, ChordNumber::MajorSeventh) == 4,
        engine_defines(q, ChordNumber::Ninth) ==> chord_size(q, ChordNumber::Ninth) == 5,
        engine_defines(q, ChordNumber::Eleventh) ==> chord_size(q, ChordNumber::Eleventh) == 6,
        engine_defines(q, ChordNumber::Thirteenth) ==> chord_size(q, ChordNumber::Thirteenth) == 7,
{
}

} // verus!

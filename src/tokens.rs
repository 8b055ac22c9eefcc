//! Validation of user tokens against the closed vocabularies, each category
//! with an error of its own.
use vstd::prelude::*;
use crate::theory::{
    parse_pitch, pitch_token, ChordNumber, ChordQuality, Direction, Mode, PitchClass,
};

verus! {

/// Which category a rejected token was meant for.
#[derive(Debug, Clone, Copy, PartialEq, Eq, Structural)]
pub enum EntryError {
    TonicError,
    ModeError,
    QualityError,
    ChordNumberError,
}

/// `c` is an uppercase ASCII letter.
pub open spec fn is_upper(c: char) -> bool {
    65 <= c as u32 && c as u32 <= 90
}

/// `c` is the lowercase ASCII character `l`, or its uppercase form.
pub open spec fn same_letter(c: char, l: char) -> bool {
    c as u32 == l as u32 || (is_upper(c) && c as u32 + 32 == l as u32)
}

/// `s` spells the lowercase word `w`, in any mix of ASCII cases.
pub open spec fn spells(s: Seq<char>, w: Seq<char>) -> bool {
    s.len() == w.len() && forall|i: int| 0 <= i < s.len() ==> same_letter(#[trigger] s[i], w[i])
}

pub open spec fn mode_token(s: Seq<char>) -> Option<Mode> {
    if spells(s, "ionian"@) { Some(Mode::Ionian) }
    else if spells(s, "dorian"@) { Some(Mode::Dorian) }
    else if spells(s, "phrygian"@) { Some(Mode::Phrygian) }
    else if spells(s, "lydian"@) { Some(Mode::Lydian) }
    else if spells(s, "mixolydian"@) { Some(Mode::Mixolydian) }
    else if spells(s, "aeolian"@) { Some(Mode::Aeolian) }
    else if spells(s, "locrian"@) { Some(Mode::Locrian) }
    else { None }
}

pub open spec fn quality_token(s: Seq<char>) -> Option<ChordQuality> {
    if spells(s, "major"@) { Some(ChordQuality::Major) }
    else if spells(s, "minor"@) { Some(ChordQuality::Minor) }
    else if spells(s, "diminished"@) { Some(ChordQuality::Diminished) }
    else if spells(s, "augmented"@) { Some(ChordQuality::Augmented) }
    else if spells(s, "halfdiminished"@) { Some(ChordQuality::HalfDiminished) }
    else if spells(s, "dominant"@) { Some(ChordQuality::Dominant) }
    else if spells(s, "suspended2"@) { Some(ChordQuality::Suspended2) }
    else if spells(s, "suspended4"@) { Some(ChordQuality::Suspended4) }
    else { None }
}

pub open spec fn number_token(s: Seq<char>) -> Option<ChordNumber> {
    if spells(s, "triad"@) { Some(ChordNumber::Triad) }
    else if spells(s, "seventh"@) { Some(ChordNumber::Seventh) }
    else if spells(s, "majorseventh"@) { Some(ChordNumber::MajorSeventh) }
    else if spells(s, "ninth"@) { Some(ChordNumber::Ninth) }
    else if spells(s, "eleventh"@) { Some(ChordNumber::Eleventh) }
    else if spells(s, "thirteenth"@) { Some(ChordNumber::Thirteenth) }
    else { None }
}

/// `c` uppercases to the uppercase form of the lowercase ASCII letter `l`:
/// either case of `l`, or for `s` also the long s (U+017F).
pub open spec fn reads_as(c: char, l: char) -> bool {
    same_letter(c, l) || (l as u32 == 115 && c as u32 == 0x17F)
}

/// `s` uppercases to the uppercase form of the lowercase ASCII word `w`.
pub open spec fn reads_as_word(s: Seq<char>, w: Seq<char>) -> bool {
    s.len() == w.len() && forall|i: int| 0 <= i < s.len() ==> reads_as(#[trigger] s[i], w[i])
}

/// The direction a token names, if its uppercase form is `ASC` or `DESC`.
pub open spec fn direction_token(s: Seq<char>) -> Option<Direction> {
    if reads_as_word(s, "asc"@) { Some(Direction::Ascending) }
    else if reads_as_word(s, "desc"@) { Some(Direction::Descending) }
    else { None }
}

/// Whether `s` spells the lowercase word `w` in any mix of ASCII cases.
pub fn spells_word(s: &str, w: &str) -> (r: bool)
    ensures
        r == spells(s@, w@),
{
    let n = s.unicode_len();
    if n != w.unicode_len() {
        return false;
    }
    let mut i: usize = 0;
    while i < n
        invariant
            n == s@.len(),
            n == w@.len(),
            i <= n,
            forall|j: int| 0 <= j < i ==> same_letter(#[trigger] s@[j], w@[j]),
        decreases n - i,
    {
        let c = s.get_char(i);
        let l = w.get_char(i);
        let cu = c as u32;
        let lu = l as u32;
        if !(cu == lu || (65 <= cu && cu <= 90 && cu + 32 == lu)) {
            assert(!same_letter(s@[i as int], w@[i as int]));
            return false;
        }
        i = i + 1;
    }
    true
}

/// Whether `s` uppercases to the uppercase form of the lowercase ASCII word `w`.
fn reads_as_direction_word(s: &str, w: &str) -> (r: bool)
    ensures
        r == reads_as_word(s@, w@),
{
    let n = s.unicode_len();
    if n != w.unicode_len() {
        return false;
    }
    let mut i: usize = 0;
    while i < n
        invariant
            n == s@.len(),
            n == w@.len(),
            i <= n,
            forall|j: int| 0 <= j < i ==> reads_as(#[trigger] s@[j], w@[j]),
        decreases n - i,
    {
        let cu = s.get_char(i) as u32;
        let lu = w.get_char(i) as u32;
        let letter = cu == lu || (65 <= cu && cu <= 90 && cu + 32 == lu);
        if !(letter || (lu == 115 && cu == 0x17F)) {
            assert(!reads_as(s@[i as int], w@[i as int]));
            return false;
        }
        i = i + 1;
    }
    true
}

/// The pitch class a token names, or `TonicError`.
pub fn match_tonic(input: &str) -> (r: Result<PitchClass, EntryError>)
    ensures
        r == (match pitch_token(input@) {
            Some(p) => Ok(p),
            None => Err(EntryError::TonicError),
        }),
{
    match parse_pitch(input) {
        Some(p) => Ok(p),
        None => Err(EntryError::TonicError),
    }
}

/// The mode a token names, or `ModeError`.
pub fn match_mode(input: &str) -> (r: Result<Mode, EntryError>)
    ensures
        r == (match mode_token(input@) {
            Some(m) => Ok(m),
            None => Err(EntryError::ModeError),
        }),
{
    if spells_word(input, "ionian") { Ok(Mode::Ionian) }
    else if spells_word(input, "dorian") { Ok(Mode::Dorian) }
    else if spells_word(input, "phrygian") { Ok(Mode::Phrygian) }
    else if spells_word(input, "lydian") { Ok(Mode::Lydian) }
    else if spells_word(input, "mixolydian") { Ok(Mode::Mixolydian) }
    else if spells_word(input, "aeolian") { Ok(Mode::Aeolian) }
    else if spells_word(input, "locrian") { Ok(Mode::Locrian) }
    else { Err(EntryError::ModeError) }
}

/// The chord quality a token names, or `QualityError`.
pub fn match_quality(input: &str) -> (r: Result<ChordQuality, EntryError>)
    ensures
        r == (match quality_token(input@) {
            Some(q) => Ok(q),
            None => Err(EntryError::QualityError),
        }),
{
    if spells_word(input, "major") { Ok(ChordQuality::Major) }
    else if spells_word(input, "minor") { Ok(ChordQuality::Minor) }
    else if spells_word(input, "diminished") { Ok(ChordQuality::Diminished) }
    else if spells_word(input, "augmented") { Ok(ChordQuality::Augmented) }
    else if spells_word(input, "halfdiminished") { Ok(ChordQuality::HalfDiminished) }
    else if spells_word(input, "dominant") { Ok(ChordQuality::Dominant) }
    else if spells_word(input, "suspended2") { Ok(ChordQuality::Suspended2) }
    else if spells_word(input, "suspended4") { Ok(ChordQuality::Suspended4) }
    else { Err(EntryError::QualityError) }
}

/// The chord number a token names, or `ChordNumberError`.
pub fn match_chord_number(input: &str) -> (r: Result<ChordNumber, EntryError>)
    ensures
        r == (match number_token(input@) {
            Some(n) => Ok(n),
            None => Err(EntryError::ChordNumberError),
        }),
{
    if spells_word(input, "triad") { Ok(ChordNumber::Triad) }
    else if spells_word(input, "seventh") { Ok(ChordNumber::Seventh) }
    else if spells_word(input, "majorseventh") { Ok(ChordNumber::MajorSeventh) }
    else if spells_word(input, "ninth") { Ok(ChordNumber::Ninth) }
    else if spells_word(input, "eleventh") { Ok(ChordNumber::Eleventh) }
    else if spells_word(input, "thirteenth") { Ok(ChordNumber::Thirteenth) }
    else { Err(EntryError::ChordNumberError) }
}

/// The direction a token names, and whether it named one: any other token
/// stands for `Ascending`, and the flag tells the caller to warn about it.
pub fn parse_direction(input: &str) -> (r: (Direction, bool))
    ensures
        r == (match direction_token(input@) {
            Some(d) => (d, true),
            None => (Direction::Ascending, false),
        }),
{
    if reads_as_direction_word(input, "asc") {
        (Direction::Ascending, true)
    } else if reads_as_direction_word(input, "desc") {
        (Direction::Descending, true)
    } else {
        (Direction::Ascending, false)
    }
}

/// `c` and `d` are the same character up to ASCII case.
pub open spec fn same_up_to_case(c: char, d: char) -> bool {
    ||| c as u32 == d as u32
    ||| is_upper(c) && c as u32 + 32 == d as u32
    ||| is_upper(d) && d as u32 + 32 == c as u32
}

/// `w` holds no uppercase ASCII letter.
pub open spec fn lowercase_word(w: Seq<char>) -> bool {
    forall|i: int| 0 <= i < w.len() ==> !is_upper(#[trigger] w[i])
}

proof fn lemma_spells_up_to_case(s: Seq<char>, t: Seq<char>, w: Seq<char>)
    requires
        s.len() == t.len(),
        forall|i: int| 0 <= i < s.len() ==> same_up_to_case(#[trigger] s[i], t[i]),
        lowercase_word(w),
    ensures
        spells(s, w) == spells(t, w),
{
    if spells(s, w) {
        assert forall|i: int| 0 <= i < t.len() implies same_letter(#[trigger] t[i], w[i]) by {
            assert(same_letter(s[i], w[i]));
            assert(same_up_to_case(s[i], t[i]));
            assert(!is_upper(w[i]));
        }
    }
    if spells(t, w) {
        assert forall|i: int| 0 <= i < s.len() implies same_letter(#[trigger] s[i], w[i]) by {
            assert(same_letter(t[i], w[i]));
            assert(same_up_to_case(s[i], t[i]));
            assert(!is_upper(w[i]));
        }
    }
}

/// Tokens that differ only in the case of ASCII letters name the same mode,
/// quality and chord number, or are rejected alike.
pub proof fn lemma_case_variants(s: Seq<char>, t: Seq<char>)
    requires
        s.len() == t.len(),
        forall|i: int| 0 <= i < s.len() ==> same_up_to_case(#[trigger] s[i], t[i]),
    ensures
        mode_token(s) == mode_token(t),
        quality_token(s) == quality_token(t),
        number_token(s) == number_token(t),
{
    reveal_strlit("ionian");
    reveal_strlit("dorian");
    reveal_strlit("phrygian");
    reveal_strlit("lydian");
    reveal_strlit("mixolydian");
    reveal_strlit("aeolian");
    reveal_strlit("locrian");
    reveal_strlit("major");
    reveal_strlit("minor");
    reveal_strlit("diminished");
    reveal_strlit("augmented");
    reveal_strlit("halfdiminished");
    reveal_strlit("dominant");
    reveal_strlit("suspended2");
    reveal_strlit("suspended4");
    reveal_strlit("triad");
    reveal_strlit("seventh");
    reveal_strlit("majorseventh");
    reveal_strlit("ninth");
    reveal_strlit("eleventh");
    reveal_strlit("thirteenth");
    lemma_spells_up_to_case(s, t, "ionian"@);
    lemma_spells_up_to_case(s, t, "dorian"@);
    lemma_spells_up_to_case(s, t, "phrygian"@);
    lemma_spells_up_to_case(s, t, "lydian"@);
    lemma_spells_up_to_case(s, t, "mixolydian"@);
    lemma_spells_up_to_case(s, t, "aeolian"@);
    lemma_spells_up_to_case(s, t, "locrian"@);
    lemma_spells_up_to_case(s, t, "major"@);
    lemma_spells_up_to_case(s, t, "minor"@);
    lemma_spells_up_to_case(s, t, "diminished"@);
    lemma_spells_up_to_case(s, t, "augmented"@);
    lemma_spells_up_to_case(s, t, "halfdiminished"@);
    lemma_spells_up_to_case(s, t, "dominant"@);
    lemma_spells_up_to_case(s, t, "suspended2"@);
    lemma_spells_up_to_case(s, t, "suspended4"@);
    lemma_spells_up_to_case(s, t, "triad"@);
    lemma_spells_up_to_case(s, t, "seventh"@);
    lemma_spells_up_to_case(s, t, "majorseventh"@);
    lemma_spells_up_to_case(s, t, "ninth"@);
    lemma_spells_up_to_case(s, t, "eleventh"@);
    lemma_spells_up_to_case(s, t, "thirteenth"@);
}

/// `c` and `d` have the same uppercase form, as far as a direction token can
/// tell: equal up to ASCII case, or both among `s`, `S` and the long s.
pub open spec fn same_uppercase(c: char, d: char) -> bool {
    ||| same_up_to_case(c, d)
    ||| (c as u32 == 115 || c as u32 == 83 || c as u32 == 0x17F)
        && (d as u32 == 115 || d as u32 == 83 || d as u32 == 0x17F)
}

proof fn lemma_reads_up_to_case(s: Seq<char>, t: Seq<char>, w: Seq<char>)
    requires
        s.len() == t.len(),
        forall|i: int| 0 <= i < s.len() ==> same_uppercase(#[trigger] s[i], t[i]),
        lowercase_word(w),
        forall|i: int| 0 <= i < w.len() ==> ((#[trigger] w[i]) as u32) < 128,
    ensures
        reads_as_word(s, w) == reads_as_word(t, w),
{
    if reads_as_word(s, w) {
        assert forall|i: int| 0 <= i < t.len() implies reads_as(#[trigger] t[i], w[i]) by {
            assert(reads_as(s[i], w[i]));
            assert(same_uppercase(s[i], t[i]));
            assert(!is_upper(w[i]));
            assert((w[i] as u32) < 128);
        }
    }
    if reads_as_word(t, w) {
        assert forall|i: int| 0 <= i < s.len() implies reads_as(#[trigger] s[i], w[i]) by {
            assert(reads_as(t[i], w[i]));
            assert(same_uppercase(s[i], t[i]));
            assert(!is_upper(w[i]));
            assert((w[i] as u32) < 128);
        }
    }
}

/// Direction tokens with the same uppercase form name the same direction, or
/// are both unrecognised and read as ascending.
pub proof fn lemma_direction_variants(s: Seq<char>, t: Seq<char>)
    requires
        s.len() == t.len(),
        forall|i: int| 0 <= i < s.len() ==> same_uppercase(#[trigger] s[i], t[i]),
    ensures
        direction_token(s) == direction_token(t),
{
    reveal_strlit("asc");
    reveal_strlit("desc");
    lemma_reads_up_to_case(s, t, "asc"@);
    lemma_reads_up_to_case(s, t, "desc"@);
}

} // verus!

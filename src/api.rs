//! The answers of the web interface: each validates its path segments once and
//! reports the first category that fails.
use vstd::prelude::*;
use vstd::string::*;
use crate::theory::{
    chord_as_vector, chord_notes_of, pitch_display, pitch_name, pitch_token, scale_as_vector,
    scale_notes_of, Direction, Note,
};
use crate::tokens::{
    direction_token, match_chord_number, match_mode, match_quality, match_tonic, mode_token,
    number_token, parse_direction, quality_token, EntryError,
};
use crate::render::{decimal, push_decimal};

verus! {

/// One note name per line.
pub open spec fn scale_listing(ns: Seq<Note>) -> Seq<char>
    decreases ns.len(),
{
    if ns.len() == 0 {
        Seq::empty()
    } else {
        scale_listing(ns.drop_last()) + pitch_name(ns.last().pitch) + seq!['\n']
    }
}

/// One `note, octave` line per note.
pub open spec fn chord_lines(ns: Seq<Note>) -> Seq<char>
    decreases ns.len(),
{
    if ns.len() == 0 {
        Seq::empty()
    } else {
        chord_lines(ns.drop_last()) + pitch_name(ns.last().pitch) + seq![',', ' ']
            + decimal(ns.last().octave as nat) + seq!['\n']
    }
}

/// The note count on a line of its own, then the notes.
pub open spec fn chord_listing(ns: Seq<Note>) -> Seq<char> {
    decimal(ns.len()) + seq!['\n'] + chord_lines(ns)
}

/// The listing of a scale: one note name per line.
pub fn render_scale_listing(notes: &Vec<Note>) -> (r: String)
    ensures
        r@ == scale_listing(notes@),
{
    let mut out = String::new();
    let mut i: usize = 0;
    while i < notes.len()
        invariant
            i <= notes@.len(),
            out@ == scale_listing(notes@.subrange(0, i as int)),
        decreases notes@.len() - i,
    {
        proof {
            reveal_strlit("\n");
            assert(notes@.subrange(0, i + 1).drop_last() =~= notes@.subrange(0, i as int));
        }
        let name = pitch_display(notes[i].pitch);
        out.append(name.as_str());
        out.append("\n");
        assert(out@ =~= scale_listing(notes@.subrange(0, i + 1)));
        i = i + 1;
    }
    assert(notes@.subrange(0, i as int) =~= notes@);
    out
}

/// The listing of a chord: its note count, then one `note, octave` line per note.
pub fn render_chord_listing(notes: &Vec<Note>) -> (r: String)
    ensures
        r@ == chord_listing(notes@),
{
    proof {
        reveal_strlit("\n");
        reveal_strlit(", ");
    }
    let mut out = String::new();
    push_decimal(&mut out, notes.len());
    out.append("\n");
    let ghost head = out@;
    let mut i: usize = 0;
    while i < notes.len()
        invariant
            i <= notes@.len(),
            head == decimal(notes@.len()) + seq!['\n'],
            out@ == head + chord_lines(notes@.subrange(0, i as int)),
        decreases notes@.len() - i,
    {
        proof {
            reveal_strlit("\n");
            reveal_strlit(", ");
            assert(notes@.subrange(0, i + 1).drop_last() =~= notes@.subrange(0, i as int));
        }
        let n = notes[i];
        let name = pitch_display(n.pitch);
        out.append(name.as_str());
        out.append(", ");
        push_decimal(&mut out, n.octave as usize);
        out.append("\n");
        assert(out@ =~= head + chord_lines(notes@.subrange(0, i + 1)));
        i = i + 1;
    }
    assert(notes@.subrange(0, i as int) =~= notes@);
    assert(out@ =~= chord_listing(notes@));
    out
}

/// The direction a token names, ascending where it names none.
pub open spec fn direction_or_ascending(s: Seq<char>) -> Direction {
    match direction_token(s) {
        Some(d) => d,
        None => Direction::Ascending,
    }
}

/// `GET /scale/<tonic>/<mode>/<direction>`: the names of the scale's seven
/// degrees, one per line. A direction that names none counts as ascending.
pub fn scale(tonic: &str, mode: &str, direction: &str) -> (r: Result<String, EntryError>)
    ensures
        pitch_token(tonic@) is None ==> r == Err::<String, EntryError>(EntryError::TonicError),
        pitch_token(tonic@) is Some && mode_token(mode@) is None
            ==> r == Err::<String, EntryError>(EntryError::ModeError),
        pitch_token(tonic@) is Some && mode_token(mode@) is Some ==> {
            &&& r is Ok
            &&& r->Ok_0@ == scale_listing(scale_notes_of(
                pitch_token(tonic@)->0,
                mode_token(mode@)->0,
                direction_or_ascending(direction@),
            ).take(7))
        },
{
    let t = match match_tonic(tonic) {
        Ok(t) => t,
        Err(e) => return Err(e),
    };
    let m = match match_mode(mode) {
        Ok(m) => m,
        Err(e) => return Err(e),
    };
    let (d, _) = parse_direction(direction);
    let mut degrees = scale_as_vector(t, m, d);
    degrees.truncate(7);
    assert(degrees@ =~= scale_notes_of(t, m, d).take(7));
    Ok(render_scale_listing(&degrees))
}

/// `GET /chord/<root>/<quality>/<extension>`: the chord's note count, then
/// its notes with their octaves.
pub fn get_chord(root: &str, quality: &str, extension: &str) -> (r: Result<String, EntryError>)
    ensures
        pitch_token(root@) is None ==> r == Err::<String, EntryError>(EntryError::TonicError),
        pitch_token(root@) is Some && quality_token(quality@) is None
            ==> r == Err::<String, EntryError>(EntryError::QualityError),
        pitch_token(root@) is Some && quality_token(quality@) is Some
            && number_token(extension@) is None
            ==> r == Err::<String, EntryError>(EntryError::ChordNumberError),
        pitch_token(root@) is Some && quality_token(quality@) is Some
            && number_token(extension@) is Some ==> {
            &&& r is Ok
            &&& r->Ok_0@ == chord_listing(chord_notes_of(
                pitch_token(root@)->0,
                quality_token(quality@)->0,
                number_token(extension@)->0,
            ))
        },
{
    let p = match match_tonic(root) {
        Ok(p) => p,
        Err(e) => return Err(e),
    };
    let q = match match_quality(quality) {
        Ok(q) => q,
        Err(e) => return Err(e),
    };
    let n = match match_chord_number(extension) {
        Ok(n) => n,
        Err(e) => return Err(e),
    };
    let notes = chord_as_vector(p, q, n);
    Ok(render_chord_listing(&notes))
}

/// `GET /`: how to use the interface.
pub fn intstructions() -> (r: String)
    ensures
        r@ == "Welcome to the Rust Music Theory API! To use this API, you can use the following endpoints:\n
    /scale/<tonic>/<mode>/<direction>\n
    /chord/<root>/<quality>/<extension>\n"@,
{
    String::from_str("Welcome to the Rust Music Theory API! To use this API, you can use the following endpoints:\n
    /scale/<tonic>/<mode>/<direction>\n
    /chord/<root>/<quality>/<extension>\n")
}

} // verus!

//! The plain-text forms of note sequences and chord progressions.
use vstd::prelude::*;
use vstd::string::*;
use crate::theory::{chord_as_vector, chord_notes_of, pitch_display, pitch_name, Note};
use crate::progression::{ChordProgression, ChordSpec};

verus! {

pub open spec fn digit_char(d: nat) -> char {
    if d == 0 { '0' }
    else if d == 1 { '1' }
    else if d == 2 { '2' }
    else if d == 3 { '3' }
    else if d == 4 { '4' }
    else if d == 5 { '5' }
    else if d == 6 { '6' }
    else if d == 7 { '7' }
    else if d == 8 { '8' }
    else { '9' }
}

/// The decimal digits of `n`, without leading zeros.
pub open spec fn decimal(n: nat) -> Seq<char>
    decreases n,
{
    if n < 10 {
        seq![digit_char(n)]
    } else {
        decimal(n / 10) + seq![digit_char(n % 10)]
    }
}

/// A note's line in a file: `C#,4`.
pub open spec fn note_line(n: Note) -> Seq<char> {
    pitch_name(n.pitch) + seq![','] + decimal(n.octave as nat) + seq!['\n']
}

/// One line per note, in order.
pub open spec fn notes_text(ns: Seq<Note>) -> Seq<char>
    decreases ns.len(),
{
    if ns.len() == 0 {
        Seq::empty()
    } else {
        notes_text(ns.drop_last()) + note_line(ns.last())
    }
}

/// One chord's block in a progression file: its note count, then its notes.
pub open spec fn block_text(ns: Seq<Note>) -> Seq<char> {
    decimal(ns.len()) + seq!['\n'] + notes_text(ns)
}

/// The blocks in order, with a `-` line between two blocks and none after the last.
pub open spec fn blocks_text(bs: Seq<Seq<Note>>) -> Seq<char>
    decreases bs.len(),
{
    if bs.len() == 0 {
        Seq::empty()
    } else if bs.len() == 1 {
        block_text(bs[0])
    } else {
        blocks_text(bs.drop_last()) + seq!['-', '\n'] + block_text(bs.last())
    }
}

/// A progression file: the chord count, a `-` line, then the chords' blocks.
pub open spec fn progression_text(bs: Seq<Seq<Note>>) -> Seq<char> {
    decimal(bs.len()) + seq!['\n', '-', '\n'] + blocks_text(bs)
}

/// The engine's notes for each chord, in order.
pub open spec fn chord_blocks(chords: Seq<ChordSpec>) -> Seq<Seq<Note>> {
    chords.map_values(|c: ChordSpec| chord_notes_of(c.root, c.quality, c.number))
}

fn digit_str(d: usize) -> (r: &'static str)
    requires
        d < 10,
    ensures
        r@ == seq![digit_char(d as nat)],
{
    proof {
        reveal_strlit("0");
        reveal_strlit("1");
        reveal_strlit("2");
        reveal_strlit("3");
        reveal_strlit("4");
        reveal_strlit("5");
        reveal_strlit("6");
        reveal_strlit("7");
        reveal_strlit("8");
        reveal_strlit("9");
    }
    if d == 0 { "0" }
    else if d == 1 { "1" }
    else if d == 2 { "2" }
    else if d == 3 { "3" }
    else if d == 4 { "4" }
    else if d == 5 { "5" }
    else if d == 6 { "6" }
    else if d == 7 { "7" }
    else if d == 8 { "8" }
    else { "9" }
}

/// Appends the decimal digits of `n`.
pub fn push_decimal(out: &mut String, n: usize)
    ensures
        final(out)@ == old(out)@ + decimal(n as nat),
    decreases n,
{
    if n >= 10 {
        push_decimal(out, n / 10);
    }
    out.append(digit_str(n % 10));
    assert(final(out)@ =~= old(out)@ + decimal(n as nat));
}

/// Appends a newline.
fn push_newline(out: &mut String)
    ensures
        final(out)@ == old(out)@ + seq!['\n'],
{
    proof { reveal_strlit("\n"); }
    out.append("\n");
}

/// Appends a note's line: `C#,4`.
fn push_note_line(out: &mut String, n: Note)
    ensures
        final(out)@ == old(out)@ + note_line(n),
{
    proof { reveal_strlit(","); }
    let name = pitch_display(n.pitch);
    out.append(name.as_str());
    out.append(",");
    push_decimal(out, n.octave as usize);
    push_newline(out);
    assert(final(out)@ =~= old(out)@ + note_line(n));
}

/// Appends one line per note.
fn push_notes(out: &mut String, notes: &Vec<Note>)
    ensures
        final(out)@ == old(out)@ + notes_text(notes@),
{
    let ghost start = out@;
    let mut i: usize = 0;
    while i < notes.len()
        invariant
            i <= notes@.len(),
            out@ == start + notes_text(notes@.subrange(0, i as int)),
        decreases notes@.len() - i,
    {
        proof {
            let next = notes@.subrange(0, i + 1);
            assert(next.drop_last() =~= notes@.subrange(0, i as int));
        }
        push_note_line(out, notes[i]);
        assert(out@ =~= start + notes_text(notes@.subrange(0, i + 1)));
        i = i + 1;
    }
    assert(notes@.subrange(0, i as int) =~= notes@);
}

/// The text of a note file: one `note,octave` line per note.
pub fn render_notes(notes: &Vec<Note>) -> (r: String)
    ensures
        r@ == notes_text(notes@),
{
    let mut out = String::new();
    push_notes(&mut out, notes);
    assert(out@ =~= notes_text(notes@));
    out
}

/// The text of a progression file whose chords expand to `blocks`.
pub fn render_progression(blocks: &Vec<Vec<Note>>) -> (r: String)
    ensures
        r@ == progression_text(blocks@.map_values(|b: Vec<Note>| b@)),
{
    let ghost bs = blocks@.map_values(|b: Vec<Note>| b@);
    proof { reveal_strlit("-\n"); }
    let mut out = String::new();
    push_decimal(&mut out, blocks.len());
    out.append("\n");
    proof { reveal_strlit("\n"); }
    out.append("-\n");
    let ghost head = out@;
    assert(head =~= decimal(bs.len()) + seq!['\n', '-', '\n']);
    let mut i: usize = 0;
    while i < blocks.len()
        invariant
            i <= blocks@.len(),
            bs == blocks@.map_values(|b: Vec<Note>| b@),
            head == decimal(bs.len()) + seq!['\n', '-', '\n'],
            out@ == head + blocks_text(bs.subrange(0, i as int)),
        decreases blocks@.len() - i,
    {
        let ghost before = out@;
        proof { reveal_strlit("-\n"); }
        if i > 0 {
            out.append("-\n");
        }
        push_decimal(&mut out, blocks[i].len());
        push_newline(&mut out);
        push_notes(&mut out, &blocks[i]);
        proof {
            let next = bs.subrange(0, i + 1);
            assert(next.drop_last() =~= bs.subrange(0, i as int));
            assert(next.last() == blocks@[i as int]@);
            let b = blocks@[i as int]@;
            if i == 0 {
                assert(before =~= head);
                assert(next[0] == b);
                assert(out@ =~= head + blocks_text(next));
            } else {
                assert(out@ =~= before + seq!['-', '\n'] + block_text(b));
                assert(blocks_text(next) == blocks_text(next.drop_last()) + seq!['-', '\n']
                    + block_text(next.last()));
                assert(out@ =~= head + blocks_text(next));
            }
        }
        i = i + 1;
    }
    assert(bs.subrange(0, i as int) =~= bs);
    assert(out@ =~= progression_text(bs));
    out
}

/// The text of the file that a progression is written to: each chord is
/// expanded by the engine, and the blocks of its notes follow the count line.
pub fn write_progression(prog: &ChordProgression) -> (r: String)
    ensures
        r@ == progression_text(chord_blocks(prog@.1)),
{
    let mut blocks: Vec<Vec<Note>> = Vec::new();
    let n = prog.get_num_chords();
    let mut i: usize = 0;
    while i < n
        invariant
            n == prog@.1.len(),
            i <= n,
            blocks@.len() == i,
            blocks@.map_values(|b: Vec<Note>| b@) =~= chord_blocks(prog@.1.subrange(0, i as int)),
        decreases n - i,
    {
        let c = prog.get_chord(i);
        let notes = chord_as_vector(c.root, c.quality, c.number);
        let ghost before = blocks@;
        blocks.push(notes);
        proof {
            let cs = prog@.1.subrange(0, i + 1);
            let old_cs = prog@.1.subrange(0, i as int);
            assert forall|k: int| 0 <= k < i implies blocks@[k]@ == chord_blocks(cs)[k] by {
                assert(blocks@[k] == before[k]);
                assert(before.map_values(|b: Vec<Note>| b@)[k] == chord_blocks(old_cs)[k]);
                assert(cs[k] == old_cs[k]);
            }
            assert(blocks@.map_values(|b: Vec<Note>| b@) =~= chord_blocks(cs));
        }
        i = i + 1;
    }
    assert(prog@.1.subrange(0, n as int) =~= prog@.1);
    render_progression(&blocks)
}

/// The path a progression named `name` is written to.
pub fn progression_destination(name: &str) -> (r: String)
    ensures
        r@ == "../progressions/"@ + name@ + ".txt"@,
{
    let mut out = String::from_str("../progressions/");
    out.append(name);
    out.append(".txt");
    out
}

/// A progression file starts with its chord count and a `-` line; with no
/// chords that is all it holds, and otherwise it ends with the last chord's
/// block, never with a `-` line.
pub proof fn lemma_progression_layout(bs: Seq<Seq<Note>>)
    ensures
        progression_text(bs).subrange(0, decimal(bs.len()).len() + 3int)
            == decimal(bs.len()) + seq!['\n', '-', '\n'],
        bs.len() == 0 ==> progression_text(bs) == seq!['0', '\n', '-', '\n'],
        bs.len() > 0 ==> progression_text(bs).subrange(
            progression_text(bs).len() - block_text(bs.last()).len(),
            progression_text(bs).len() as int,
        ) == block_text(bs.last()),
{
    let head = decimal(bs.len()) + seq!['\n', '-', '\n'];
    assert(progression_text(bs).subrange(0, head.len() as int) =~= head);
    if bs.len() == 0 {
        assert(decimal(0) == seq!['0']);
        assert(progression_text(bs) =~= seq!['0', '\n', '-', '\n']);
    } else {
        let t = progression_text(bs);
        let b = block_text(bs.last());
        if bs.len() == 1 {
            assert(bs[0] == bs.last());
        }
        assert(t.subrange(t.len() - b.len(), t.len() as int) =~= b);
    }
}

/// How many `-` characters `s` holds.
pub open spec fn dash_count(s: Seq<char>) -> nat
    decreases s.len(),
{
    if s.len() == 0 {
        0
    } else {
        dash_count(s.drop_last()) + if s.last() == '-' { 1nat } else { 0nat }
    }
}

proof fn lemma_dash_count_concat(a: Seq<char>, b: Seq<char>)
    ensures
        dash_count(a + b) == dash_count(a) + dash_count(b),
    decreases b.len(),
{
    if b.len() > 0 {
        assert((a + b).drop_last() =~= a + b.drop_last());
        lemma_dash_count_concat(a, b.drop_last());
    } else {
        assert(a + b =~= a);
    }
}

proof fn lemma_dash_one(c: char)
    ensures
        dash_count(seq![c]) == if c == '-' { 1nat } else { 0nat },
{
    assert(seq![c].drop_last() =~= Seq::<char>::empty());
    assert(dash_count(Seq::<char>::empty()) == 0);
}

proof fn lemma_decimal_no_dash(n: nat)
    ensures
        dash_count(decimal(n)) == 0,
    decreases n,
{
    if n >= 10 {
        lemma_decimal_no_dash(n / 10);
        lemma_dash_count_concat(decimal(n / 10), seq![digit_char(n % 10)]);
        lemma_dash_one(digit_char(n % 10));
    } else {
        lemma_dash_one(digit_char(n));
    }
}

proof fn lemma_short_no_dash(s: Seq<char>)
    requires
        s.len() <= 2,
        forall|i: int| 0 <= i < s.len() ==> s[i] != '-',
    ensures
        dash_count(s) == 0,
{
    if s.len() == 1 {
        assert(s =~= seq![s[0]]);
        lemma_dash_one(s[0]);
    } else if s.len() == 2 {
        assert(s =~= seq![s[0]] + seq![s[1]]);
        lemma_dash_one(s[0]);
        lemma_dash_one(s[1]);
        lemma_dash_count_concat(seq![s[0]], seq![s[1]]);
    }
}

proof fn lemma_block_no_dash(ns: Seq<Note>)
    ensures
        dash_count(notes_text(ns)) == 0,
        dash_count(block_text(ns)) == 0,
    decreases ns.len(),
{
    if ns.len() > 0 {
        lemma_block_no_dash(ns.drop_last());
        let n = ns.last();
        lemma_short_no_dash(pitch_name(n.pitch));
        lemma_short_no_dash(seq![',']);
        lemma_short_no_dash(seq!['\n']);
        lemma_decimal_no_dash(n.octave as nat);
        lemma_dash_count_concat(pitch_name(n.pitch), seq![',']);
        lemma_dash_count_concat(pitch_name(n.pitch) + seq![','], decimal(n.octave as nat));
        lemma_dash_count_concat(pitch_name(n.pitch) + seq![','] + decimal(n.octave as nat), seq!['\n']);
        lemma_dash_count_concat(notes_text(ns.drop_last()), note_line(n));
    }
    lemma_decimal_no_dash(ns.len());
    lemma_short_no_dash(seq!['\n']);
    lemma_dash_count_concat(decimal(ns.len()), seq!['\n']);
    lemma_dash_count_concat(decimal(ns.len()) + seq!['\n'], notes_text(ns));
}

proof fn lemma_blocks_dashes(bs: Seq<Seq<Note>>)
    requires
        bs.len() > 0,
    ensures
        dash_count(blocks_text(bs)) == bs.len() - 1,
    decreases bs.len(),
{
    lemma_block_no_dash(bs.last());
    if bs.len() == 1 {
        assert(bs[0] == bs.last());
    } else {
        lemma_blocks_dashes(bs.drop_last());
        assert(seq!['-', '\n'] =~= seq!['-'] + seq!['\n']);
        lemma_dash_one('-');
        lemma_dash_one('\n');
        lemma_dash_count_concat(seq!['-'], seq!['\n']);
        lemma_dash_count_concat(blocks_text(bs.drop_last()), seq!['-', '\n']);
        lemma_dash_count_concat(blocks_text(bs.drop_last()) + seq!['-', '\n'], block_text(bs.last()));
    }
}

/// A progression file holds one `-` line after the count line and one
/// between each two blocks, and `-` appears nowhere else: with `N > 0`
/// chords it holds exactly `N` dashes, and with none exactly one.
pub proof fn lemma_progression_separators(bs: Seq<Seq<Note>>)
    ensures
        dash_count(progression_text(bs)) == if bs.len() == 0 { 1 } else { bs.len() },
{
    let head = decimal(bs.len()) + seq!['\n', '-', '\n'];
    lemma_decimal_no_dash(bs.len());
    let sep = seq!['\n', '-', '\n'];
    assert(sep =~= seq!['\n'] + seq!['-'] + seq!['\n']);
    lemma_dash_one('-');
    lemma_dash_one('\n');
    lemma_dash_count_concat(seq!['\n'], seq!['-']);
    lemma_dash_count_concat(seq!['\n'] + seq!['-'], seq!['\n']);
    lemma_dash_count_concat(decimal(bs.len()), sep);
    lemma_dash_count_concat(head, blocks_text(bs));
    if bs.len() > 0 {
        lemma_blocks_dashes(bs);
    }
}

} // verus!

//! A named chord progression: chords in the order they were added.
use vstd::prelude::*;
use crate::theory::{ChordNumber, ChordQuality, PitchClass};

verus! {

/// One chord of a progression.
#[derive(Debug, Clone, Copy, PartialEq, Eq, Structural)]
pub struct ChordSpec {
    pub root: PitchClass,
    pub quality: ChordQuality,
    pub number: ChordNumber,
}

/// A name and the chords of the progression, in order.
#[derive(Debug)]
pub struct ChordProgression {
    pub name: String,
    pub chord_progression: Vec<ChordSpec>,
}

impl ChordSpec {
    pub fn new(root: PitchClass, quality: ChordQuality, number: ChordNumber) -> (r: ChordSpec)
        ensures
            r == (ChordSpec { root, quality, number }),
    {
        ChordSpec { root, quality, number }
    }
}

impl ChordProgression {
    /// The progression's name and its chords.
    pub open spec fn view(&self) -> (Seq<char>, Seq<ChordSpec>) {
        (self.name@, self.chord_progression@)
    }

    /// An empty progression.
    pub fn new(name: String) -> (r: ChordProgression)
        ensures
            r@ == (name@, Seq::<ChordSpec>::empty()),
    {
        ChordProgression { name, chord_progression: Vec::new() }
    }

    /// A progression holding the given chords, in their order.
    pub fn from_chords(name: String, chords: Vec<ChordSpec>) -> (r: ChordProgression)
        ensures
            r@ == (name@, chords@),
    {
        ChordProgression { name, chord_progression: chords }
    }

    /// Adds a chord after the others.
    pub fn add_chord(&mut self, chord: ChordSpec)
        ensures
            final(self)@ == (old(self)@.0, old(self)@.1.push(chord)),
    {
        self.chord_progression.push(chord);
    }

    /// The number of chords.
    pub fn get_num_chords(&self) -> (r: usize)
        ensures
            r == self@.1.len(),
    {
        self.chord_progression.len()
    }

    /// The chord at position `i`.
    pub fn get_chord(&self, i: usize) -> (r: ChordSpec)
        requires
            i < self@.1.len(),
        ensures
            r == self@.1[i as int],
    {
        self.chord_progression[i]
    }

    pub fn get_name(&self) -> (r: &str)
        ensures
            r@ == self@.0,
    {
        self.name.as_str()
    }
}

} // verus!

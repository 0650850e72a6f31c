//! Pitches: a letter name with an octave, and its step number.
//!
//! A pitch maps to a single integer step in the standard equal-tempered
//! numbering with twelve semitones per octave, where `A` in octave 4 is step
//! 69. The mapping is total and injective: distinct pitches get distinct
//! steps.

use vstd::prelude::*;

verus! {

/// A natural letter name of the scale.
#[derive(Clone, Copy, Debug, PartialEq, Eq, Structural)]
pub enum Letter {
    C,
    D,
    E,
    F,
    G,
    A,
    B,
}

/// A pitch: a letter name in an octave.
#[derive(Clone, Copy, Debug, PartialEq, Eq, Structural)]
pub struct Note {
    pub letter: Letter,
    pub octave: i32,
}

/// The letter's semitone offset within its octave.
pub open spec fn semitone_spec(letter: Letter) -> int {
    match letter {
        Letter::C => 0,
        Letter::D => 2,
        Letter::E => 4,
        Letter::F => 5,
        Letter::G => 7,
        Letter::A => 9,
        Letter::B => 11,
    }
}

/// The step number of a pitch: twelve semitones per octave, counted from
/// octave -1, so that `A` in octave 4 is step 69.
pub open spec fn step_spec(note: Note) -> int {
    (note.octave + 1) * 12 + semitone_spec(note.letter)
}

/// A pitch whose step fits in the seven data bits of a note message.
pub open spec fn playable(note: Note) -> bool {
    0 <= step_spec(note) <= 127
}

/// Decide at run time whether a pitch is playable.
pub fn is_playable(note: Note) -> (ok: bool)
    ensures
        ok == playable(note),
{
    if note.octave < -1 || note.octave > 9 {
        return false;
    }
    let semitone: i32 = match note.letter {
        Letter::C => 0,
        Letter::D => 2,
        Letter::E => 4,
        Letter::F => 5,
        Letter::G => 7,
        Letter::A => 9,
        Letter::B => 11,
    };
    (note.octave + 1) * 12 + semitone <= 127
}

/// The step number of a playable pitch, as the byte a note message carries.
pub fn step(note: Note) -> (s: u8)
    requires
        playable(note),
    ensures
        s as int == step_spec(note),
{
    let semitone: i32 = match note.letter {
        Letter::C => 0,
        Letter::D => 2,
        Letter::E => 4,
        Letter::F => 5,
        Letter::G => 7,
        Letter::A => 9,
        Letter::B => 11,
    };
    ((note.octave + 1) * 12 + semitone) as u8
}

} // verus!

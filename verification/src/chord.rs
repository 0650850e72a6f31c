//! Chords: the pitches a beat sounds.
//!
//! Each voice owns a fixed triad. A beat sounds the first triad when the
//! first voice accents, the second when the second does, both layered when
//! both do, and nothing at all on a rest.

use vstd::prelude::*;
use crate::pitch::{playable, Letter, Note};

verus! {

/// The triad of the first voice: C3, D4, E5.
pub open spec fn triad_a_spec() -> Seq<Note> {
    seq![
        Note { letter: Letter::C, octave: 3 },
        Note { letter: Letter::D, octave: 4 },
        Note { letter: Letter::E, octave: 5 },
    ]
}

/// The triad of the second voice: G3, A4, B5.
pub open spec fn triad_b_spec() -> Seq<Note> {
    seq![
        Note { letter: Letter::G, octave: 3 },
        Note { letter: Letter::A, octave: 4 },
        Note { letter: Letter::B, octave: 5 },
    ]
}

/// The chord a beat sounds, given the two voices' accent flags.
pub open spec fn chord_spec(accent_a: bool, accent_b: bool) -> Seq<Note> {
    (if accent_a {
        triad_a_spec()
    } else {
        Seq::empty()
    }) + (if accent_b {
        triad_b_spec()
    } else {
        Seq::empty()
    })
}

/// Build the chord for a beat.
pub fn chord_for(accent_a: bool, accent_b: bool) -> (notes: Vec<Note>)
    ensures
        notes@ == chord_spec(accent_a, accent_b),
{
    let mut notes: Vec<Note> = Vec::new();
    if accent_a {
        notes.push(Note { letter: Letter::C, octave: 3 });
        notes.push(Note { letter: Letter::D, octave: 4 });
        notes.push(Note { letter: Letter::E, octave: 5 });
    }
    if accent_b {
        notes.push(Note { letter: Letter::G, octave: 3 });
        notes.push(Note { letter: Letter::A, octave: 4 });
        notes.push(Note { letter: Letter::B, octave: 5 });
    }
    assert(notes@ =~= chord_spec(accent_a, accent_b));
    notes
}

/// Chord construction is a pure function of the accent flags alone: both
/// triads layered when both voices accent, one triad when one does, and
/// silence when neither does.
pub proof fn lemma_chord_cases()
    ensures
        chord_spec(true, true) == triad_a_spec() + triad_b_spec(),
        chord_spec(true, false) == triad_a_spec(),
        chord_spec(false, true) == triad_b_spec(),
        chord_spec(false, false) == Seq::<Note>::empty(),
{
    assert(chord_spec(true, false) =~= triad_a_spec());
    assert(chord_spec(false, true) =~= triad_b_spec());
    assert(chord_spec(false, false) =~= Seq::<Note>::empty());
}

/// Every pitch a chord can sound has a step in the message byte range.
pub proof fn lemma_chord_playable(accent_a: bool, accent_b: bool)
    ensures
        forall|i: int|
            0 <= i < chord_spec(accent_a, accent_b).len() ==> playable(
                #[trigger] chord_spec(accent_a, accent_b)[i],
            ),
{
}

} // verus!

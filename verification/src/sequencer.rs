//! The phase sequencer: one cycle of the pattern rendered beat by beat.
//!
//! A cycle plays the two voices against each other at a fixed rotation. The
//! first voice is the pattern as it stands; the second is the pattern rotated
//! right by the rotation amount. Beat `i` sounds the chord the two accent
//! flags at position `i` call for, and is rendered strictly in index order.
//! Every beat holds for the normal duration at the base velocity, except the
//! last two beats of the closing cycle, which hold five times as long, ten
//! velocity steps louder.

use vstd::prelude::*;
use vstd::arithmetic::div_mod::{lemma_mod_add_multiples_vanish, lemma_small_mod};
use crate::chord::{chord_for, chord_spec};
use crate::pattern::{rotate_right_spec, rotated_source_index};
use crate::pitch::Note;

verus! {

/// The hold of an ordinary beat, in milliseconds.
pub const NORMAL_DURATION_MS: u64 = 200;

/// The hold of each of the closing cycle's last two beats, in milliseconds.
pub const CLOSING_DURATION_MS: u64 = 1000;

/// How much louder the closing cycle's last two beats are.
pub const CLOSING_VELOCITY_BOOST: u8 = 10;

/// One rendered beat: the pitches to sound together, the velocity to sound
/// them at, and how long to hold them before they are released. A rest is a
/// beat with no pitches; its hold still passes in full.
pub struct Beat {
    pub notes: Vec<Note>,
    pub velocity: u8,
    pub duration_ms: u64,
}

/// Whether beat `i` of a cycle over `n` beats takes the slow, loud ending:
/// only in the closing cycle, and only on the last two beats.
pub open spec fn slow_ending(n: int, i: int, is_final_cycle: bool) -> bool {
    is_final_cycle && i + 2 >= n
}

/// The accent flags of the two voices at beat `i`: the pattern itself, and
/// the pattern rotated right by `rotation`.
pub open spec fn beat_notes_spec(pattern: Seq<bool>, rotation: int, i: int) -> Seq<Note> {
    chord_spec(pattern[i], rotate_right_spec(pattern, rotation)[i])
}

/// The velocity beat `i` sounds at.
pub open spec fn beat_velocity_spec(velocity: u8, n: int, i: int, is_final_cycle: bool) -> int {
    if slow_ending(n, i, is_final_cycle) {
        velocity + CLOSING_VELOCITY_BOOST
    } else {
        velocity as int
    }
}

/// How long beat `i` holds.
pub open spec fn beat_duration_spec(n: int, i: int, is_final_cycle: bool) -> u64 {
    if slow_ending(n, i, is_final_cycle) {
        CLOSING_DURATION_MS
    } else {
        NORMAL_DURATION_MS
    }
}

/// Render beat `i` of the cycle at the given rotation.
pub fn beat_event(
    pattern: &Vec<bool>,
    rotation: usize,
    velocity: u8,
    is_final_cycle: bool,
    i: usize,
) -> (beat: Beat)
    requires
        i < pattern@.len(),
        velocity + CLOSING_VELOCITY_BOOST <= u8::MAX,
    ensures
        beat.notes@ == beat_notes_spec(pattern@, rotation as int, i as int),
        beat.velocity == beat_velocity_spec(velocity, pattern@.len() as int, i as int, is_final_cycle),
        beat.duration_ms == beat_duration_spec(pattern@.len() as int, i as int, is_final_cycle),
{
    let n = pattern.len();
    let accent_a = pattern[i];
    let accent_b = pattern[rotated_source_index(n, rotation, i)];
    let notes = chord_for(accent_a, accent_b);
    if is_final_cycle && n - i <= 2 {
        Beat { notes, velocity: velocity + CLOSING_VELOCITY_BOOST, duration_ms: CLOSING_DURATION_MS }
    } else {
        Beat { notes, velocity, duration_ms: NORMAL_DURATION_MS }
    }
}

/// Render one full cycle: beat `i` of the result is beat `i` of the cycle,
/// so the beats stand in strictly increasing index order, each index once.
pub fn render_cycle(
    pattern: &Vec<bool>,
    rotation: usize,
    velocity: u8,
    is_final_cycle: bool,
) -> (beats: Vec<Beat>)
    requires
        velocity + CLOSING_VELOCITY_BOOST <= u8::MAX,
    ensures
        beats@.len() == pattern@.len(),
        forall|i: int| 0 <= i < beats@.len() ==> {
            &&& (#[trigger] beats@[i]).notes@ == beat_notes_spec(pattern@, rotation as int, i)
            &&& beats@[i].velocity == beat_velocity_spec(
                velocity,
                pattern@.len() as int,
                i,
                is_final_cycle,
            )
            &&& beats@[i].duration_ms == beat_duration_spec(
                pattern@.len() as int,
                i,
                is_final_cycle,
            )
        },
{
    let n = pattern.len();
    let mut beats: Vec<Beat> = Vec::new();
    let mut i: usize = 0;
    while i < n
        invariant
            n == pattern@.len(),
            i <= n,
            velocity + CLOSING_VELOCITY_BOOST <= u8::MAX,
            beats@.len() == i,
            forall|j: int| 0 <= j < i ==> {
                &&& (#[trigger] beats@[j]).notes@ == beat_notes_spec(pattern@, rotation as int, j)
                &&& beats@[j].velocity == beat_velocity_spec(velocity, n as int, j, is_final_cycle)
                &&& beats@[j].duration_ms == beat_duration_spec(n as int, j, is_final_cycle)
            },
        decreases n - i,
    {
        let beat = beat_event(pattern, rotation, velocity, is_final_cycle, i);
        beats.push(beat);
        i += 1;
    }
    beats
}

/// The closing cycle's dynamics: its last two beats hold for the long
/// duration, ten velocity steps above the base; every earlier beat of the
/// same cycle keeps the normal duration and the base velocity.
pub proof fn lemma_closing_cycle_dynamics(velocity: u8, n: int, i: int)
    requires
        0 <= i < n,
    ensures
        i + 2 >= n ==> beat_duration_spec(n, i, true) == CLOSING_DURATION_MS
            && beat_velocity_spec(velocity, n, i, true) == velocity + CLOSING_VELOCITY_BOOST,
        i + 2 < n ==> beat_duration_spec(n, i, true) == NORMAL_DURATION_MS
            && beat_velocity_spec(velocity, n, i, true) == velocity,
        beat_duration_spec(n, i, false) == NORMAL_DURATION_MS,
        beat_velocity_spec(velocity, n, i, false) == velocity,
{
}

/// At rotation 0 the second voice is the first: both accent flags of every
/// beat agree, so a beat whose shared flag is true sounds the two triads
/// layered as one chord, and a beat whose shared flag is false is a rest.
pub proof fn lemma_unison_cycle(pattern: Seq<bool>, i: int)
    requires
        0 <= i < pattern.len(),
    ensures
        rotate_right_spec(pattern, 0)[i] == pattern[i],
        pattern[i] ==> beat_notes_spec(pattern, 0, i) == crate::chord::triad_a_spec()
            + crate::chord::triad_b_spec(),
        !pattern[i] ==> beat_notes_spec(pattern, 0, i) == Seq::<Note>::empty(),
{
    let n = pattern.len() as int;
    lemma_small_mod(i as nat, n as nat);
    assert(rotate_right_spec(pattern, 0)[i] == pattern[i]);
    if !pattern[i] {
        assert(beat_notes_spec(pattern, 0, i) =~= Seq::<Note>::empty());
    }
}

/// Every pitch of a rendered beat is playable: its chord draws from the two
/// fixed triads alone, so the beat's note messages always exist.
pub proof fn lemma_rendered_chord_playable(pattern: Seq<bool>, rotation: int, i: int)
    requires
        0 <= i < pattern.len(),
    ensures
        forall|j: int|
            0 <= j < beat_notes_spec(pattern, rotation, i).len() ==> crate::pitch::playable(
                #[trigger] beat_notes_spec(pattern, rotation, i)[j],
            ),
{
    crate::chord::lemma_chord_playable(
        pattern[i],
        rotate_right_spec(pattern, rotation)[i],
    );
}

/// A rest beat — neither voice accents — sounds no pitches at all, yet its
/// hold is the same as any sounding beat's at that position: the duration
/// never depends on the chord, so the rest takes its full time.
pub proof fn lemma_rest_beat(pattern: Seq<bool>, rotation: int, n: int, i: int, is_final_cycle: bool)
    requires
        0 <= i < pattern.len(),
        !pattern[i],
        !rotate_right_spec(pattern, rotation)[i],
    ensures
        beat_notes_spec(pattern, rotation, i) == Seq::<Note>::empty(),
        beat_duration_spec(n, i, is_final_cycle) == if slow_ending(n, i, is_final_cycle) {
            CLOSING_DURATION_MS
        } else {
            NORMAL_DURATION_MS
        },
{
    assert(beat_notes_spec(pattern, rotation, i) =~= Seq::<Note>::empty());
}

/// At rotation 1 the second voice is shifted right by one place: its first
/// beat carries the accent the pattern ends with.
pub proof fn lemma_shift_by_one_wraps(pattern: Seq<bool>)
    requires
        pattern.len() > 0,
    ensures
        rotate_right_spec(pattern, 1)[0] == pattern[pattern.len() - 1],
{
    let n = pattern.len() as int;
    lemma_mod_add_multiples_vanish(-1, n);
    lemma_small_mod((n - 1) as nat, n as nat);
}

} // verus!

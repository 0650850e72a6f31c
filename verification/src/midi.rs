//! The note emitter: beats turned into protocol-level note messages.
//!
//! A beat becomes one trigger message and one release message per pitch, all
//! on the fixed channel. The trigger messages are meant to be sent together,
//! then the beat's hold observed, then the release messages sent together; a
//! rest beat has no messages, and its hold is observed all the same.

use vstd::prelude::*;
use crate::pitch::{is_playable, playable, step, step_spec, Note};
use crate::sequencer::Beat;

verus! {

/// The channel every message of the piece is addressed to.
pub const CHANNEL: u8 = 0;

/// The bytes of the message that triggers `note_byte` at `velocity` on the
/// fixed channel.
pub open spec fn note_on_spec(note_byte: u8, velocity: u8) -> Seq<u8> {
    seq![0x90u8, note_byte, velocity]
}

/// The bytes of the message that releases `note_byte` at `velocity` on the
/// fixed channel.
pub open spec fn note_off_spec(note_byte: u8, velocity: u8) -> Seq<u8> {
    seq![0x80u8, note_byte, velocity]
}

/// Relies on rimd's `MidiMessage::note_on`: its data is the three bytes
/// status `0x90 | channel`, note, velocity.
#[verifier::external_body]
fn note_on_bytes(note_byte: u8, velocity: u8, channel: u8) -> (message: Vec<u8>)
    ensures
        message@ == seq![0x90u8 | channel, note_byte, velocity],
{
    rimd::MidiMessage::note_on(note_byte, velocity, channel).data
}

/// Relies on rimd's `MidiMessage::note_off`: its data is the three bytes
/// status `0x80 | channel`, note, velocity.
#[verifier::external_body]
fn note_off_bytes(note_byte: u8, velocity: u8, channel: u8) -> (message: Vec<u8>)
    ensures
        message@ == seq![0x80u8 | channel, note_byte, velocity],
{
    rimd::MidiMessage::note_off(note_byte, velocity, channel).data
}

/// The trigger message for one pitch on the fixed channel.
pub fn note_on_message(note_byte: u8, velocity: u8) -> (message: Vec<u8>)
    ensures
        message@ == note_on_spec(note_byte, velocity),
{
    let message = note_on_bytes(note_byte, velocity, CHANNEL);
    proof {
        assert(0x90u8 | 0u8 == 0x90u8) by (bit_vector);
    }
    message
}

/// The release message for one pitch on the fixed channel.
pub fn note_off_message(note_byte: u8, velocity: u8) -> (message: Vec<u8>)
    ensures
        message@ == note_off_spec(note_byte, velocity),
{
    let message = note_off_bytes(note_byte, velocity, CHANNEL);
    proof {
        assert(0x80u8 | 0u8 == 0x80u8) by (bit_vector);
    }
    message
}

/// The trigger messages of a chord, one per pitch, in the chord's order.
pub fn press_messages(notes: &Vec<Note>, velocity: u8) -> (messages: Vec<Vec<u8>>)
    requires
        forall|i: int| 0 <= i < notes@.len() ==> playable(#[trigger] notes@[i]),
    ensures
        messages@.len() == notes@.len(),
        forall|i: int|
            0 <= i < messages@.len() ==> (#[trigger] messages@[i])@ == note_on_spec(
                step_spec(notes@[i]) as u8,
                velocity,
            ),
{
    let mut messages: Vec<Vec<u8>> = Vec::new();
    let mut i: usize = 0;
    while i < notes.len()
        invariant
            i <= notes@.len(),
            messages@.len() == i,
            forall|j: int| 0 <= j < notes@.len() ==> playable(#[trigger] notes@[j]),
            forall|j: int|
                0 <= j < i ==> (#[trigger] messages@[j])@ == note_on_spec(
                    step_spec(notes@[j]) as u8,
                    velocity,
                ),
        decreases notes@.len() - i,
    {
        messages.push(note_on_message(step(notes[i]), velocity));
        i += 1;
    }
    messages
}

/// The release messages of a chord, one per pitch, in the chord's order.
pub fn release_messages(notes: &Vec<Note>, velocity: u8) -> (messages: Vec<Vec<u8>>)
    requires
        forall|i: int| 0 <= i < notes@.len() ==> playable(#[trigger] notes@[i]),
    ensures
        messages@.len() == notes@.len(),
        forall|i: int|
            0 <= i < messages@.len() ==> (#[trigger] messages@[i])@ == note_off_spec(
                step_spec(notes@[i]) as u8,
                velocity,
            ),
{
    let mut messages: Vec<Vec<u8>> = Vec::new();
    let mut i: usize = 0;
    while i < notes.len()
        invariant
            i <= notes@.len(),
            messages@.len() == i,
            forall|j: int| 0 <= j < notes@.len() ==> playable(#[trigger] notes@[j]),
            forall|j: int|
                0 <= j < i ==> (#[trigger] messages@[j])@ == note_off_spec(
                    step_spec(notes@[j]) as u8,
                    velocity,
                ),
        decreases notes@.len() - i,
    {
        messages.push(note_off_message(step(notes[i]), velocity));
        i += 1;
    }
    messages
}

/// The messages of one beat: the triggers to send before its hold and the
/// releases to send after, one pair of messages per pitch, all at the beat's
/// velocity. A rest beat has no messages at all — only its hold. `None` when
/// a pitch of the beat has no step in the byte range: beats the sequencer
/// renders always have, since their chords draw from the two fixed triads.
pub fn beat_messages(beat: &Beat) -> (messages: Option<(Vec<Vec<u8>>, Vec<Vec<u8>>)>)
    ensures
        match messages {
            Some(pair) => {
                &&& forall|i: int|
                    0 <= i < beat.notes@.len() ==> playable(#[trigger] beat.notes@[i])
                &&& pair.0@.len() == beat.notes@.len()
                &&& pair.1@.len() == beat.notes@.len()
                &&& forall|i: int|
                    0 <= i < beat.notes@.len() ==> (#[trigger] pair.0@[i])@ == note_on_spec(
                        step_spec(beat.notes@[i]) as u8,
                        beat.velocity,
                    )
                &&& forall|i: int|
                    0 <= i < beat.notes@.len() ==> (#[trigger] pair.1@[i])@ == note_off_spec(
                        step_spec(beat.notes@[i]) as u8,
                        beat.velocity,
                    )
            },
            None => exists|i: int|
                0 <= i < beat.notes@.len() && !playable(#[trigger] beat.notes@[i]),
        },
{
    if !beat_is_playable(beat) {
        return None;
    }
    let ons = press_messages(&beat.notes, beat.velocity);
    let offs = release_messages(&beat.notes, beat.velocity);
    Some((ons, offs))
}

/// Whether every pitch of the beat is playable: every beat the sequencer
/// renders is, since its chords draw from the two fixed triads.
pub fn beat_is_playable(beat: &Beat) -> (ok: bool)
    ensures
        ok == forall|i: int| 0 <= i < beat.notes@.len() ==> playable(#[trigger] beat.notes@[i]),
{
    let mut i: usize = 0;
    while i < beat.notes.len()
        invariant
            i <= beat.notes@.len(),
            forall|j: int| 0 <= j < i ==> playable(#[trigger] beat.notes@[j]),
        decreases beat.notes@.len() - i,
    {
        if !is_playable(beat.notes[i]) {
            return false;
        }
        i += 1;
    }
    true
}

} // verus!

use clapping_music::chord::chord_for;
use clapping_music::driver::{clapping_pattern, performance_cycles, CycleParams};
use clapping_music::pitch::{Letter, Note};
use clapping_music::sequencer::{beat_event, render_cycle};

fn note(letter: Letter, octave: i32) -> Note {
    Note { letter, octave }
}

fn triad_a() -> Vec<Note> {
    vec![note(Letter::C, 3), note(Letter::D, 4), note(Letter::E, 5)]
}

fn triad_b() -> Vec<Note> {
    vec![note(Letter::G, 3), note(Letter::A, 4), note(Letter::B, 5)]
}

fn union_chord() -> Vec<Note> {
    let mut all = triad_a();
    all.extend(triad_b());
    all
}

#[test]
fn chord_layers_both_triads_when_both_accent() {
    assert_eq!(chord_for(true, true), union_chord());
}

#[test]
fn chord_is_first_triad_when_only_first_accents() {
    assert_eq!(chord_for(true, false), triad_a());
}

#[test]
fn chord_is_second_triad_when_only_second_accents() {
    assert_eq!(chord_for(false, true), triad_b());
}

#[test]
fn chord_is_empty_when_neither_accents() {
    assert_eq!(chord_for(false, false), Vec::new());
}

#[test]
fn chord_construction_is_pure() {
    for &(a, b) in &[(false, false), (false, true), (true, false), (true, true)] {
        assert_eq!(chord_for(a, b), chord_for(a, b));
    }
}

#[test]
fn canonical_pattern_is_twelve_beats() {
    assert_eq!(
        clapping_pattern(),
        vec![true, true, true, false, true, true, false, true, false, true, true, false]
    );
}

#[test]
fn render_cycle_visits_every_beat_once_in_order() {
    let pattern = clapping_pattern();
    let beats = render_cycle(&pattern, 0, 40, false);
    assert_eq!(beats.len(), 12);
    // Beat i of the result is beat i of the cycle: same accents, same chord.
    for (i, beat) in beats.iter().enumerate() {
        assert_eq!(beat.notes, chord_for(pattern[i], pattern[i]));
    }
}

#[test]
fn unison_cycle_layers_the_triads_as_one_chord() {
    // Rotation 0 reduces the second voice to the first: a beat whose shared
    // accent is true sounds the six-pitch union, never two separate chords.
    let pattern = clapping_pattern();
    let beats = render_cycle(&pattern, 0, 40, false);
    for (i, beat) in beats.iter().enumerate() {
        if pattern[i] {
            assert_eq!(beat.notes, union_chord());
        } else {
            assert_eq!(beat.notes, Vec::new());
        }
    }
}

#[test]
fn rotation_one_shifts_the_second_voice() {
    // With rotation 1, beat 0 of the second voice is beat 11 of the first,
    // which is false in the canonical pattern: so only the first triad sounds.
    let pattern = clapping_pattern();
    let beats = render_cycle(&pattern, 1, 40, false);
    assert_eq!(beats[0].notes, triad_a());
    // And beat 1 of the second voice is beat 0 of the first (true): union.
    assert_eq!(beats[1].notes, union_chord());
}

#[test]
fn ordinary_cycle_keeps_duration_and_velocity_everywhere() {
    let pattern = clapping_pattern();
    let beats = render_cycle(&pattern, 4, 40, false);
    for beat in &beats {
        assert_eq!(beat.velocity, 40);
        assert_eq!(beat.duration_ms, 200);
    }
}

#[test]
fn closing_cycle_slows_and_boosts_only_the_last_two_beats() {
    let pattern = clapping_pattern();
    let beats = render_cycle(&pattern, 0, 60, true);
    for (i, beat) in beats.iter().enumerate() {
        if i >= 10 {
            assert_eq!(beat.duration_ms, 1000);
            assert_eq!(beat.velocity, 70);
        } else {
            assert_eq!(beat.duration_ms, 200);
            assert_eq!(beat.velocity, 60);
        }
    }
}

#[test]
fn rest_beat_is_empty_but_keeps_its_full_hold() {
    // Beat 8 of the canonical pattern is false in both voices at rotation 0.
    let pattern = clapping_pattern();
    let beat = beat_event(&pattern, 0, 40, false, 8);
    assert_eq!(beat.notes, Vec::new());
    assert_eq!(beat.duration_ms, 200);
    // A rest at a closing position still takes the long hold.
    let closing_rest = beat_event(&pattern, 0, 60, true, 11);
    assert_eq!(closing_rest.notes, Vec::new());
    assert_eq!(closing_rest.duration_ms, 1000);
}

#[test]
fn schedule_runs_every_rotation_four_times_then_closes_in_unison() {
    let cycles = performance_cycles(12);
    assert_eq!(cycles.len(), 52);
    for (k, params) in cycles.iter().enumerate() {
        if k < 48 {
            assert_eq!(
                *params,
                CycleParams { rotation: k / 4, velocity: 40, is_final_cycle: false }
            );
        } else if k < 51 {
            assert_eq!(*params, CycleParams { rotation: 0, velocity: 50, is_final_cycle: false });
        } else {
            assert_eq!(*params, CycleParams { rotation: 0, velocity: 60, is_final_cycle: true });
        }
    }
}

use clapping_music::pattern::{rotate_right, rotated_source_index};

#[test]
fn rotate_right_by_one_wraps_last_to_front() {
    let p = vec![true, false, false, true];
    assert_eq!(rotate_right(&p, 1), vec![true, true, false, false]);
}

#[test]
fn rotate_right_by_zero_is_identity() {
    let p = vec![true, true, false, true, false];
    assert_eq!(rotate_right(&p, 0), p);
}

#[test]
fn rotate_right_by_length_is_identity() {
    let p = vec![true, true, false, true, false];
    assert_eq!(rotate_right(&p, 5), p);
}

#[test]
fn rotate_right_beyond_length_is_taken_modulo() {
    let p = vec![true, false, false, true];
    assert_eq!(rotate_right(&p, 5), rotate_right(&p, 1));
    assert_eq!(rotate_right(&p, 9), rotate_right(&p, 1));
}

#[test]
fn rotation_round_trip_restores_the_pattern() {
    let p = vec![
        true, true, true, false, true, true, false, true, false, true, true, false,
    ];
    for r in 0..=12 {
        let once = rotate_right(&p, r);
        let back = rotate_right(&once, 12 - r);
        assert_eq!(back, p);
    }
}

#[test]
fn rotate_right_empty_pattern() {
    let p: Vec<bool> = vec![];
    assert_eq!(rotate_right(&p, 3), p);
}

#[test]
fn rotated_source_index_normalizes_into_range() {
    // Position 0 of a voice shifted right by 3 comes from position 9.
    assert_eq!(rotated_source_index(12, 3, 0), 9);
    assert_eq!(rotated_source_index(12, 3, 3), 0);
    assert_eq!(rotated_source_index(12, 3, 11), 8);
    // Shifts larger than the length wrap.
    assert_eq!(rotated_source_index(12, 15, 0), 9);
    assert_eq!(rotated_source_index(12, 0, 7), 7);
}

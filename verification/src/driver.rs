//! The performance plan: which cycles the piece runs, in which order.
//!
//! The piece runs every rotation of the pattern in turn, four cycles each,
//! quietly. It closes in unison: three cycles at rotation 0, a little louder,
//! and one last cycle louder still, marked as the closing cycle so that its
//! final two beats slow down.

use vstd::prelude::*;
use vstd::arithmetic::div_mod::lemma_fundamental_div_mod_converse_div;

verus! {

/// The velocity of the rotating cycles.
pub const ROTATION_VELOCITY: u8 = 40;

/// The velocity of the three plain unison cycles.
pub const UNISON_VELOCITY: u8 = 50;

/// The velocity of the closing cycle.
pub const CLOSING_VELOCITY: u8 = 60;

/// One cycle's parameters: the rotation of the second voice, the base
/// velocity, and whether this is the closing cycle of the piece.
#[derive(Clone, Copy, Debug, PartialEq, Eq, Structural)]
pub struct CycleParams {
    pub rotation: usize,
    pub velocity: u8,
    pub is_final_cycle: bool,
}

/// The canonical pattern of the piece, twelve beats long.
pub open spec fn clapping_pattern_spec() -> Seq<bool> {
    seq![true, true, true, false, true, true, false, true, false, true, true, false]
}

/// Build the canonical pattern.
pub fn clapping_pattern() -> (pattern: Vec<bool>)
    ensures
        pattern@ == clapping_pattern_spec(),
{
    let mut pattern: Vec<bool> = Vec::new();
    pattern.push(true);
    pattern.push(true);
    pattern.push(true);
    pattern.push(false);
    pattern.push(true);
    pattern.push(true);
    pattern.push(false);
    pattern.push(true);
    pattern.push(false);
    pattern.push(true);
    pattern.push(true);
    pattern.push(false);
    assert(pattern@ =~= clapping_pattern_spec());
    pattern
}

/// How many cycles a performance of an `n`-beat pattern runs: four for each
/// of the `n` rotations, then the four unison cycles.
pub open spec fn cycle_count_spec(n: int) -> int {
    4 * n + 4
}

/// The parameters of cycle `k` of the performance: rotation `k / 4` at the
/// quiet velocity while the phase still shifts, then unison, and the very
/// last cycle is the closing one.
pub open spec fn cycle_params_spec(n: int, k: int) -> CycleParams {
    if k < 4 * n {
        CycleParams { rotation: (k / 4) as usize, velocity: ROTATION_VELOCITY, is_final_cycle: false }
    } else if k < 4 * n + 3 {
        CycleParams { rotation: 0, velocity: UNISON_VELOCITY, is_final_cycle: false }
    } else {
        CycleParams { rotation: 0, velocity: CLOSING_VELOCITY, is_final_cycle: true }
    }
}

/// Build the full cycle schedule of a performance over an `n`-beat pattern.
pub fn performance_cycles(n: usize) -> (cycles: Vec<CycleParams>)
    requires
        4 * n + 4 <= usize::MAX,
    ensures
        cycles@.len() == cycle_count_spec(n as int),
        forall|k: int|
            0 <= k < cycles@.len() ==> #[trigger] cycles@[k] == cycle_params_spec(n as int, k),
{
    let mut cycles: Vec<CycleParams> = Vec::new();
    let mut r: usize = 0;
    while r < n
        invariant
            r <= n,
            4 * n + 4 <= usize::MAX,
            cycles@.len() == 4 * r,
            forall|k: int|
                0 <= k < cycles@.len() ==> #[trigger] cycles@[k] == cycle_params_spec(n as int, k),
        decreases n - r,
    {
        let mut j: usize = 0;
        while j < 4
            invariant
                r < n,
                j <= 4,
                4 * n + 4 <= usize::MAX,
                cycles@.len() == 4 * r + j,
                forall|k: int|
                    0 <= k < cycles@.len() ==> #[trigger] cycles@[k] == cycle_params_spec(
                        n as int,
                        k,
                    ),
            decreases 4 - j,
        {
            proof {
                lemma_fundamental_div_mod_converse_div(
                    4 * r as int + j as int,
                    4,
                    r as int,
                    j as int,
                );
            }
            cycles.push(
                CycleParams { rotation: r, velocity: ROTATION_VELOCITY, is_final_cycle: false },
            );
            j += 1;
        }
        r += 1;
    }
    cycles.push(CycleParams { rotation: 0, velocity: UNISON_VELOCITY, is_final_cycle: false });
    cycles.push(CycleParams { rotation: 0, velocity: UNISON_VELOCITY, is_final_cycle: false });
    cycles.push(CycleParams { rotation: 0, velocity: UNISON_VELOCITY, is_final_cycle: false });
    cycles.push(CycleParams { rotation: 0, velocity: CLOSING_VELOCITY, is_final_cycle: true });
    cycles
}

} // verus!

use vstd::prelude::*;

verus! {

// ── Timing ──────────────────────────────────────────────────────────────────
//
// All times are integers in microseconds. The song runs at 90 BPM, so a beat
// lasts 2/3 s and a sixteenth note ("step") lasts exactly 1/6 s. A note's hit
// time is therefore `step / STEPS_PER_SECOND` seconds; to compare it with a
// song time without rounding, both sides are scaled by `STEPS_PER_SECOND`.

/// Microseconds in one second.
pub const MICROS_PER_SECOND: u64 = 1_000_000;

/// Sixteenth-note steps per second at 90 BPM.
pub const STEPS_PER_SECOND: u64 = 6;

/// Sixteenth-note steps in one bar.
pub const STEPS_PER_BAR: u32 = 16;

/// Beats per minute of the song.
pub const BPM: u64 = 90;

/// How long before its hit time a note appears at the far end of its lane.
pub const APPROACH_TIME_US: u64 = 2_000_000;

/// Largest distance from the hit time that still counts as a perfect hit
/// (half a lane unit at ten lane units per second).
pub const PERFECT_WINDOW_US: u64 = 50_000;

/// Largest distance from the hit time that still counts as a good hit
/// (one and a half lane units at ten lane units per second).
pub const GOOD_WINDOW_US: u64 = 150_000;

/// How long after its hit time an unplayed note counts as missed
/// (two lane units past the hit zone at ten lane units per second).
pub const MISS_DELAY_US: u64 = 200_000;

/// Number of lanes.
pub const LANE_COUNT: usize = 4;

// ── Battle ──────────────────────────────────────────────────────────────────

/// Hit points each crab starts with.
pub const STARTING_HP: u32 = 100;

/// Damage dealt to the opponent by a perfect hit.
pub const PERFECT_OPPONENT_DAMAGE: u32 = 12;

/// Damage dealt to the opponent by a good hit.
pub const GOOD_OPPONENT_DAMAGE: u32 = 6;

/// Damage dealt to the player by a missed note.
pub const MISS_PLAYER_DAMAGE: u32 = 15;

/// How long the hit flash lasts after a miss.
pub const MISS_FLASH_US: u64 = 500_000;

/// How long the hit flash lasts after a hit.
pub const HIT_FLASH_US: u64 = 300_000;

// ── Scoring ─────────────────────────────────────────────────────────────────

/// Points for a perfect hit before the combo multiplier.
pub const PERFECT_SCORE: u32 = 100;

/// Points for a good hit before the combo multiplier.
pub const GOOD_SCORE: u32 = 50;

} // verus!

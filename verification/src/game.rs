use vstd::prelude::*;

use crate::battle::BattleResource;
use crate::beat::BeatResource;
use crate::scoring::ScoreResource;

verus! {

/// Prepares a new game: the song restarts and plays, the fight starts fresh
/// and the score is cleared.
pub fn reset_game_state(beat: &mut BeatResource, battle: &mut BattleResource, score: &mut ScoreResource)
    ensures
        final(beat).song_time_us == 0,
        final(beat).is_playing,
        final(beat).beat_pulse == 0,
        final(battle).is_fresh(),
        final(battle).wf(),
        final(score).score == 0,
        final(score).combo == 0,
        final(score).max_combo == 0,
        final(score).perfects == 0,
        final(score).goods == 0,
        final(score).misses == 0,
        final(score).wf(),
{
    beat.reset();
    battle.reset();
    score.reset();
}

} // verus!

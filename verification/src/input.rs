use vstd::prelude::*;

use crate::battle::{opponent_damaged, BattleResource, HitResult};
use crate::constants::{
    GOOD_OPPONENT_DAMAGE, GOOD_WINDOW_US, PERFECT_OPPONENT_DAMAGE, PERFECT_WINDOW_US,
    STEPS_PER_SECOND,
};
use crate::notes::{is_due, is_late, time_to_hit, time_to_hit_scaled, Note};
use crate::scoring::{scored_hit, HitTiming, ScoreResource};

verus! {

/// How far from its hit time a note is played, scaled as in
/// `time_to_hit_scaled`.
pub open spec fn hit_distance(step: u32, song_time_us: u64) -> nat {
    let t = time_to_hit_scaled(step, song_time_us);
    if t < 0 {
        (-t) as nat
    } else {
        t as nat
    }
}

/// A press on `lane` at `song_time_us` can hit this note: it is on that lane,
/// not missed, and within the good window of its hit time.
pub open spec fn can_be_hit(note: Note, lane: usize, song_time_us: u64) -> bool {
    &&& note.lane == lane
    &&& !note.missed
    &&& hit_distance(note.step, song_time_us) <= GOOD_WINDOW_US * STEPS_PER_SECOND
}

/// The timing of a hit at this distance: perfect within the perfect window,
/// good beyond it.
pub open spec fn timing_for_distance(distance: nat) -> HitTiming {
    if distance <= PERFECT_WINDOW_US * STEPS_PER_SECOND {
        HitTiming::Perfect
    } else {
        HitTiming::Good
    }
}

/// Damage a hit of this timing deals to the opponent.
pub open spec fn opponent_damage(timing: HitTiming) -> u32 {
    match timing {
        HitTiming::Perfect => PERFECT_OPPONENT_DAMAGE,
        HitTiming::Good => GOOD_OPPONENT_DAMAGE,
    }
}

/// The feedback shown for a hit of this timing.
pub open spec fn hit_result_for(timing: HitTiming) -> HitResult {
    match timing {
        HitTiming::Perfect => HitResult::Perfect,
        HitTiming::Good => HitResult::Good,
    }
}

/// A note that a press can hit is on the lanes already and is not yet missed:
/// the good window is shorter than both the approach time and the miss delay.
pub proof fn lemma_hittable_is_due_and_not_late(note: Note, lane: usize, song_time_us: u64)
    requires
        can_be_hit(note, lane, song_time_us),
    ensures
        is_due(note.step, song_time_us),
        !is_late(note.step, song_time_us),
{
}

/// The timing rule: a hit is perfect exactly when it lands within 50 ms of
/// the note's hit time (300_000 in units of 1/6 us), and good beyond that;
/// being closer never makes a hit worse.
pub proof fn lemma_timing_rule(distance: nat, closer: nat)
    ensures
        timing_for_distance(distance) == HitTiming::Perfect <==> distance <= 300_000,
        timing_for_distance(distance) == HitTiming::Good <==> distance > 300_000,
        closer <= distance && timing_for_distance(distance) == HitTiming::Perfect
            ==> timing_for_distance(closer) == HitTiming::Perfect,
{
}

/// Which notes a press can hit: those on the pressed lane, not missed, whose
/// hit time (step / 6 s) lies within 150 ms of the press, before or after.
pub proof fn lemma_hittable_rule(note: Note, lane: usize, song_time_us: u64)
    ensures
        can_be_hit(note, lane, song_time_us) <==> note.lane == lane && !note.missed && note.step
            * 1_000_000 - 900_000 <= 6 * song_time_us <= note.step * 1_000_000 + 900_000,
        hit_distance(note.step, song_time_us) <= 300_000 <==> note.step * 1_000_000 - 300_000 <= 6
            * song_time_us <= note.step * 1_000_000 + 300_000,
        hit_distance(note.step, song_time_us) == (if note.step * 1_000_000 >= 6 * song_time_us {
            note.step * 1_000_000 - 6 * song_time_us
        } else {
            6 * song_time_us - note.step * 1_000_000
        }),
{
}

/// A hit's consequences: a perfect hit deals 12 damage and shows as perfect,
/// a good hit deals 6 and shows as good, so a perfect hit always strikes
/// harder.
pub proof fn lemma_hit_consequences()
    ensures
        opponent_damage(HitTiming::Perfect) == 12,
        opponent_damage(HitTiming::Good) == 6,
        opponent_damage(HitTiming::Perfect) > opponent_damage(HitTiming::Good),
        hit_result_for(HitTiming::Perfect) == HitResult::Perfect,
        hit_result_for(HitTiming::Good) == HitResult::Good,
{
}

/// Judges a key press on `lane` at `song_time_us` against the notes on the
/// lanes. The press hits the note that can be hit and lies closest to its hit
/// time (the earliest in `notes` among equally close ones); its timing is
/// perfect within the perfect window and good otherwise. Returns the index of
/// that note and the timing, or `None` when no note can be hit.
pub fn judge_press(notes: &Vec<Note>, lane: usize, song_time_us: u64) -> (target: Option<
    (usize, HitTiming),
>)
    ensures
        target is None <==> forall|j: int|
            0 <= j < notes@.len() ==> !can_be_hit(#[trigger] notes@[j], lane, song_time_us),
        target matches Some((i, timing)) ==> {
            &&& i < notes@.len()
            &&& can_be_hit(notes@[i as int], lane, song_time_us)
            &&& forall|j: int|
                0 <= j < notes@.len() && can_be_hit(#[trigger] notes@[j], lane, song_time_us)
                    ==> hit_distance(notes@[i as int].step, song_time_us) <= hit_distance(
                    notes@[j].step,
                    song_time_us,
                )
            &&& forall|j: int|
                0 <= j < i && can_be_hit(#[trigger] notes@[j], lane, song_time_us) ==> hit_distance(
                    notes@[i as int].step,
                    song_time_us,
                ) < hit_distance(notes@[j].step, song_time_us)
            &&& timing == timing_for_distance(hit_distance(notes@[i as int].step, song_time_us))
        },
{
    let good_window: i128 = (GOOD_WINDOW_US as i128) * (STEPS_PER_SECOND as i128);
    let mut best: Option<usize> = None;
    let mut best_dist: i128 = 0;
    let mut k: usize = 0;
    while k < notes.len()
        invariant
            k <= notes@.len(),
            good_window == GOOD_WINDOW_US * STEPS_PER_SECOND,
            best is None ==> forall|j: int|
                0 <= j < k ==> !can_be_hit(#[trigger] notes@[j], lane, song_time_us),
            best matches Some(b) ==> {
                &&& b < k
                &&& can_be_hit(notes@[b as int], lane, song_time_us)
                &&& best_dist == hit_distance(notes@[b as int].step, song_time_us)
                &&& forall|j: int|
                    0 <= j < k && can_be_hit(#[trigger] notes@[j], lane, song_time_us)
                        ==> best_dist <= hit_distance(notes@[j].step, song_time_us)
                &&& forall|j: int|
                    0 <= j < b && can_be_hit(#[trigger] notes@[j], lane, song_time_us)
                        ==> best_dist < hit_distance(notes@[j].step, song_time_us)
            },
        decreases notes@.len() - k,
    {
        let note = notes[k];
        if note.lane == lane && !note.missed {
            let until_hit = time_to_hit(note.step, song_time_us);
            let dist = if until_hit < 0 {
                -until_hit
            } else {
                until_hit
            };
            let closer = match best {
                None => true,
                Some(_) => dist < best_dist,
            };
            if dist <= good_window && closer {
                best = Some(k);
                best_dist = dist;
            }
        }
        k = k + 1;
    }
    match best {
        None => None,
        Some(b) => {
            let timing = if best_dist <= (PERFECT_WINDOW_US as i128) * (STEPS_PER_SECOND as i128) {
                HitTiming::Perfect
            } else {
                HitTiming::Good
            };
            Some((b, timing))
        },
    }
}

/// Scores a hit and lets it strike the opponent: the score counts the hit,
/// and the opponent takes the damage of its timing, with the matching
/// feedback flashed.
pub fn apply_hit(score: &mut ScoreResource, battle: &mut BattleResource, timing: HitTiming)
    requires
        old(score).hit_fits(timing),
    ensures
        *final(score) == scored_hit(*old(score), timing),
        *final(battle) == opponent_damaged(*old(battle), opponent_damage(timing), hit_result_for(timing)),
        old(score).wf() ==> final(score).wf(),
        old(battle).wf() ==> final(battle).wf(),
{
    let (damage, result) = match timing {
        HitTiming::Perfect => (PERFECT_OPPONENT_DAMAGE, HitResult::Perfect),
        HitTiming::Good => (GOOD_OPPONENT_DAMAGE, HitResult::Good),
    };
    score.record_hit(timing);
    battle.damage_opponent(damage, result);
}

} // verus!

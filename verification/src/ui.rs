use vstd::prelude::*;

use crate::battle::{BattleResource, HitResult};
use crate::constants::STARTING_HP;
use crate::states::GameState;

verus! {

/// The width of a hit point bar, in percent of its full width: the share of
/// the starting hit points left, never more than the whole bar.
pub fn hp_bar_percent(hp: u32) -> (percent: u32)
    ensures
        percent == (if hp >= STARTING_HP {
            100
        } else {
            hp * 100 / (STARTING_HP as int)
        }),
        percent <= 100,
{
    if hp >= STARTING_HP {
        100
    } else {
        ((hp as u64) * 100 / (STARTING_HP as u64)) as u32
    }
}

/// The result to show as hit feedback: the latest one while the flash runs,
/// nothing afterwards.
pub fn hit_feedback(battle: &BattleResource) -> (shown: Option<HitResult>)
    ensures
        shown == (if battle.hit_flash_timer_us > 0 {
            battle.last_hit
        } else {
            None
        }),
{
    if battle.hit_flash_timer_us > 0 {
        battle.last_hit
    } else {
        None
    }
}

/// The feedback text for a judged note.
pub fn feedback_label(result: HitResult) -> (label: &'static str)
    ensures
        result == HitResult::Perfect ==> label@ == "PERFECT!"@,
        result == HitResult::Good ==> label@ == "GOOD!"@,
        result == HitResult::Miss ==> label@ == "MISS..."@,
{
    match result {
        HitResult::Perfect => "PERFECT!",
        HitResult::Good => "GOOD!",
        HitResult::Miss => "MISS...",
    }
}

/// The title of the result screen: a victory, or otherwise a defeat.
pub fn result_title(state: GameState) -> (title: &'static str)
    ensures
        state == GameState::Victory ==> title@ == "VICTORY!"@,
        state != GameState::Victory ==> title@ == "DEFEAT..."@,
{
    match state {
        GameState::Victory => "VICTORY!",
        _ => "DEFEAT...",
    }
}

} // verus!

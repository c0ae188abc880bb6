use vstd::prelude::*;

use crate::battle::{BattleResource, HitResult};

verus! {

/// How a crab reacts to the hit being shown. The sizes and offsets depend on
/// the remaining flash time `t` (in seconds) and are drawn by the renderer.
#[derive(Clone, Copy, Debug, PartialEq, Eq, Structural)]
pub enum CrabReaction {
    /// No hit is shown: normal size, and the player crab is back in the
    /// middle of its lane.
    Rest,
    /// The player crab after a miss: it grows by `0.2 * t` and shakes sideways.
    Shake,
    /// The opponent after a hit: it grows by `0.1 * t` and rises by `0.1 * t`.
    Recoil,
    /// The opponent while a flash shows no result: normal size, risen by
    /// `0.1 * t`.
    Rise,
    /// The crab the shown result is not about: normal size, left where it is.
    Steady,
}

/// How the player crab (`is_player`) or the opponent reacts to the current
/// hit flash: a miss shakes the player, a hit makes the opponent recoil.
pub open spec fn reaction_for(is_player: bool, battle: BattleResource) -> CrabReaction {
    if battle.hit_flash_timer_us == 0 {
        CrabReaction::Rest
    } else if is_player {
        if battle.last_hit == Some(HitResult::Miss) {
            CrabReaction::Shake
        } else {
            CrabReaction::Steady
        }
    } else {
        match battle.last_hit {
            Some(HitResult::Miss) => CrabReaction::Steady,
            Some(_) => CrabReaction::Recoil,
            None => CrabReaction::Rise,
        }
    }
}

/// Computes `reaction_for`.
pub fn crab_reaction(is_player: bool, battle: &BattleResource) -> (reaction: CrabReaction)
    ensures
        reaction == reaction_for(is_player, *battle),
{
    if battle.hit_flash_timer_us == 0 {
        return CrabReaction::Rest;
    }
    let missed = match battle.last_hit {
        Some(HitResult::Miss) => true,
        _ => false,
    };
    if is_player {
        if missed {
            CrabReaction::Shake
        } else {
            CrabReaction::Steady
        }
    } else {
        match battle.last_hit {
            Some(HitResult::Miss) => CrabReaction::Steady,
            Some(_) => CrabReaction::Recoil,
            None => CrabReaction::Rise,
        }
    }
}

/// The reaction rules: with no flash running both crabs rest; a shown miss
/// shakes the player and leaves the opponent steady; a shown hit makes the
/// opponent recoil and leaves the player steady; a flash without a result
/// only lifts the opponent.
pub proof fn lemma_reaction_rules(battle: BattleResource)
    ensures
        reaction_for(true, battle) == CrabReaction::Rest <==> battle.hit_flash_timer_us == 0,
        reaction_for(false, battle) == CrabReaction::Rest <==> battle.hit_flash_timer_us == 0,
        reaction_for(true, battle) == CrabReaction::Shake <==> battle.hit_flash_timer_us > 0
            && battle.last_hit == Some(HitResult::Miss),
        reaction_for(true, battle) == CrabReaction::Steady <==> battle.hit_flash_timer_us > 0
            && battle.last_hit != Some(HitResult::Miss),
        reaction_for(false, battle) == CrabReaction::Recoil <==> battle.hit_flash_timer_us > 0
            && (battle.last_hit == Some(HitResult::Perfect) || battle.last_hit == Some(
            HitResult::Good,
        )),
        reaction_for(false, battle) == CrabReaction::Steady <==> battle.hit_flash_timer_us > 0
            && battle.last_hit == Some(HitResult::Miss),
        reaction_for(false, battle) == CrabReaction::Rise <==> battle.hit_flash_timer_us > 0
            && battle.last_hit is None,
{
}

/// In a consistent fight a flash always shows a result, so the opponent
/// never merely rises, and exactly one of the two crabs reacts visibly to a
/// shown result: the player to a miss, the opponent to a hit.
pub proof fn lemma_one_crab_reacts(battle: BattleResource)
    requires
        battle.wf(),
        battle.hit_flash_timer_us > 0,
    ensures
        reaction_for(false, battle) != CrabReaction::Rise,
        (reaction_for(true, battle) == CrabReaction::Shake) != (reaction_for(false, battle)
            == CrabReaction::Recoil),
        reaction_for(true, battle) != CrabReaction::Rest,
        reaction_for(false, battle) != CrabReaction::Rest,
{
}

} // verus!

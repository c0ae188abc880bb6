use vstd::prelude::*;

use crate::constants::{HIT_FLASH_US, MISS_FLASH_US, STARTING_HP};
use crate::states::GameState;

verus! {

/// The result of the latest judged note, shown as feedback.
#[derive(Clone, Copy, Debug, PartialEq, Eq, Structural)]
pub enum HitResult {
    Perfect,
    Good,
    Miss,
}

/// The state of the fight between the two crabs.
///
/// Hit points are whole numbers (every damage value is whole), and the hit
/// flash timer counts down in microseconds.
pub struct BattleResource {
    pub player_hp: u32,
    pub opponent_hp: u32,
    pub last_hit: Option<HitResult>,
    pub hit_flash_timer_us: u64,
    pub game_over: bool,
}

/// Hit points left after taking `amount` damage: they never go below zero.
pub open spec fn hp_after(hp: u32, amount: u32) -> u32 {
    if amount >= hp {
        0
    } else {
        (hp - amount) as u32
    }
}

/// The fight after the player takes `amount` damage: the player's hit
/// points drop (not below zero) and the miss is flashed.
pub open spec fn player_damaged(b: BattleResource, amount: u32) -> BattleResource {
    BattleResource {
        player_hp: hp_after(b.player_hp, amount),
        last_hit: Some(HitResult::Miss),
        hit_flash_timer_us: MISS_FLASH_US,
        ..b
    }
}

/// The fight after the opponent takes `amount` damage from a hit judged
/// `result`: the opponent's hit points drop (not below zero) and the hit is
/// flashed.
pub open spec fn opponent_damaged(b: BattleResource, amount: u32, result: HitResult) -> BattleResource {
    BattleResource {
        opponent_hp: hp_after(b.opponent_hp, amount),
        last_hit: Some(result),
        hit_flash_timer_us: HIT_FLASH_US,
        ..b
    }
}

/// Damage never heals: hit points only drop, they reach zero exactly when the
/// damage is at least what is left, and otherwise drop by the damage.
pub proof fn lemma_hp_after(hp: u32, amount: u32)
    ensures
        hp_after(hp, amount) <= hp,
        hp_after(hp, amount) == 0 <==> amount >= hp,
        amount < hp ==> hp_after(hp, amount) == hp - amount,
{
}

/// The fight's outcome as judged by `check_win_lose_conditions`: nothing once
/// the fight is over, a defeat when the player is down, a victory when only
/// the opponent is down, and nothing while both stand.
pub open spec fn fight_outcome(b: BattleResource) -> Option<GameState> {
    if b.game_over {
        None
    } else if b.player_hp == 0 {
        Some(GameState::Defeat)
    } else if b.opponent_hp == 0 {
        Some(GameState::Victory)
    } else {
        None
    }
}

/// What a miss does to the fight: only the player loses hit points (down to
/// zero at most) and the miss is flashed; the opponent is untouched and the
/// fight does not end by itself.
pub proof fn lemma_player_damage_effect(b: BattleResource, amount: u32)
    ensures
        player_damaged(b, amount).player_hp == (if amount >= b.player_hp {
            0
        } else {
            b.player_hp - amount
        }),
        player_damaged(b, amount).opponent_hp == b.opponent_hp,
        player_damaged(b, amount).game_over == b.game_over,
        player_damaged(b, amount).last_hit == Some(HitResult::Miss),
        player_damaged(b, amount).hit_flash_timer_us == MISS_FLASH_US,
{
}

/// What a hit does to the fight: only the opponent loses hit points (down to
/// zero at most) and the hit is flashed; the player's hit points stay and the
/// fight does not end by itself.
pub proof fn lemma_opponent_damage_effect(b: BattleResource, amount: u32, result: HitResult)
    ensures
        opponent_damaged(b, amount, result).opponent_hp == (if amount >= b.opponent_hp {
            0
        } else {
            b.opponent_hp - amount
        }),
        opponent_damaged(b, amount, result).player_hp == b.player_hp,
        opponent_damaged(b, amount, result).game_over == b.game_over,
        opponent_damaged(b, amount, result).last_hit == Some(result),
        opponent_damaged(b, amount, result).hit_flash_timer_us == HIT_FLASH_US,
{
}

/// Misses that take the player's last hit points make the next check report
/// a defeat, and a hit never turns a running fight into a defeat.
pub proof fn lemma_damage_decides_fight(b: BattleResource, amount: u32, result: HitResult)
    ensures
        !b.game_over && amount >= b.player_hp ==> fight_outcome(player_damaged(b, amount)) == Some(
            GameState::Defeat,
        ),
        !b.game_over && b.player_hp > 0 ==> fight_outcome(opponent_damaged(b, amount, result))
            != Some(GameState::Defeat),
        !b.game_over && b.player_hp > 0 && amount >= b.opponent_hp ==> fight_outcome(
            opponent_damaged(b, amount, result),
        ) == Some(GameState::Victory),
{
}

impl BattleResource {
    /// Neither crab has more than its starting hit points, and a hit is shown
    /// exactly while the flash timer runs.
    pub open spec fn wf(&self) -> bool {
        &&& self.player_hp <= STARTING_HP
        &&& self.opponent_hp <= STARTING_HP
        &&& (self.hit_flash_timer_us == 0 <==> self.last_hit is None)
    }

    /// The state at the start of a fight.
    pub open spec fn is_fresh(&self) -> bool {
        &&& self.player_hp == STARTING_HP
        &&& self.opponent_hp == STARTING_HP
        &&& self.last_hit is None
        &&& self.hit_flash_timer_us == 0
        &&& !self.game_over
    }

    /// A fresh fight: both crabs at full health, nothing shown.
    pub fn new() -> (b: Self)
        ensures
            b.is_fresh(),
            b.wf(),
    {
        BattleResource {
            player_hp: STARTING_HP,
            opponent_hp: STARTING_HP,
            last_hit: None,
            hit_flash_timer_us: 0,
            game_over: false,
        }
    }

    /// Starts the fight over.
    pub fn reset(&mut self)
        ensures
            final(self).is_fresh(),
            final(self).wf(),
    {
        self.player_hp = STARTING_HP;
        self.opponent_hp = STARTING_HP;
        self.last_hit = None;
        self.hit_flash_timer_us = 0;
        self.game_over = false;
    }

    /// The player takes `amount` damage from a missed note, down to zero at
    /// most, and the miss is flashed.
    pub fn damage_player(&mut self, amount: u32)
        ensures
            *final(self) == player_damaged(*old(self), amount),
            old(self).wf() ==> final(self).wf(),
    {
        self.player_hp = if amount >= self.player_hp {
            0
        } else {
            self.player_hp - amount
        };
        self.last_hit = Some(HitResult::Miss);
        self.hit_flash_timer_us = MISS_FLASH_US;
    }

    /// The opponent takes `amount` damage from a hit, down to zero at most,
    /// and the hit's result is flashed.
    pub fn damage_opponent(&mut self, amount: u32, result: HitResult)
        ensures
            *final(self) == opponent_damaged(*old(self), amount, result),
            old(self).wf() ==> final(self).wf(),
    {
        self.opponent_hp = if amount >= self.opponent_hp {
            0
        } else {
            self.opponent_hp - amount
        };
        self.last_hit = Some(result);
        self.hit_flash_timer_us = HIT_FLASH_US;
    }

    /// Ends the fight once a crab is down: the player losing all hit points
    /// is a defeat (even when the opponent is down too), otherwise the
    /// opponent losing them is a victory. The state to switch to is returned,
    /// and only once: a finished fight asks for no further switch.
    pub fn check_win_lose_conditions(&mut self) -> (next: Option<GameState>)
        ensures
            next == (if old(self).game_over {
                None
            } else if old(self).player_hp == 0 {
                Some(GameState::Defeat)
            } else if old(self).opponent_hp == 0 {
                Some(GameState::Victory)
            } else {
                None
            }),
            next == fight_outcome(*old(self)),
            final(self).game_over == (old(self).game_over || next is Some),
            final(self).player_hp == old(self).player_hp,
            final(self).opponent_hp == old(self).opponent_hp,
            final(self).last_hit == old(self).last_hit,
            final(self).hit_flash_timer_us == old(self).hit_flash_timer_us,
    {
        if self.game_over {
            return None;
        }
        if self.player_hp == 0 {
            self.game_over = true;
            Some(GameState::Defeat)
        } else if self.opponent_hp == 0 {
            self.game_over = true;
            Some(GameState::Victory)
        } else {
            None
        }
    }

    /// Lets `delta_us` microseconds of the hit flash run out; when it is over
    /// the feedback is cleared.
    pub fn update_hit_flash_timer(&mut self, delta_us: u64)
        ensures
            old(self).hit_flash_timer_us == 0 ==> final(self).hit_flash_timer_us == 0
                && final(self).last_hit == old(self).last_hit,
            old(self).hit_flash_timer_us > 0 && delta_us >= old(self).hit_flash_timer_us
                ==> final(self).hit_flash_timer_us == 0 && final(self).last_hit is None,
            old(self).hit_flash_timer_us > 0 && delta_us < old(self).hit_flash_timer_us
                ==> final(self).hit_flash_timer_us == old(self).hit_flash_timer_us - delta_us
                && final(self).last_hit == old(self).last_hit,
            final(self).player_hp == old(self).player_hp,
            final(self).opponent_hp == old(self).opponent_hp,
            final(self).game_over == old(self).game_over,
            old(self).wf() ==> final(self).wf(),
    {
        if self.hit_flash_timer_us > 0 {
            if delta_us >= self.hit_flash_timer_us {
                self.hit_flash_timer_us = 0;
                self.last_hit = None;
            } else {
                self.hit_flash_timer_us = self.hit_flash_timer_us - delta_us;
            }
        }
    }
}

impl Default for BattleResource {
    fn default() -> (b: Self)
        ensures
            b.is_fresh(),
    {
        BattleResource::new()
    }
}

} // verus!

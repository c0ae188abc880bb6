use crab_rhythm::battle::{BattleResource, HitResult};
use crab_rhythm::constants::{MISS_PLAYER_DAMAGE, PERFECT_OPPONENT_DAMAGE, STARTING_HP};
use crab_rhythm::states::GameState;

#[test]
fn fresh_battle() {
    let b = BattleResource::default();
    assert_eq!(b.player_hp, STARTING_HP);
    assert_eq!(b.opponent_hp, 100);
    assert_eq!(b.last_hit, None);
    assert_eq!(b.hit_flash_timer_us, 0);
    assert!(!b.game_over);
}

#[test]
fn player_damage_flashes_miss() {
    let mut b = BattleResource::new();
    b.damage_player(MISS_PLAYER_DAMAGE);
    assert_eq!(b.player_hp, 85);
    assert_eq!(b.opponent_hp, 100);
    assert_eq!(b.last_hit, Some(HitResult::Miss));
    assert_eq!(b.hit_flash_timer_us, 500_000);
}

#[test]
fn opponent_damage_flashes_result() {
    let mut b = BattleResource::new();
    b.damage_opponent(PERFECT_OPPONENT_DAMAGE, HitResult::Perfect);
    assert_eq!(b.opponent_hp, 88);
    assert_eq!(b.player_hp, 100);
    assert_eq!(b.last_hit, Some(HitResult::Perfect));
    assert_eq!(b.hit_flash_timer_us, 300_000);
    b.damage_opponent(6, HitResult::Good);
    assert_eq!(b.opponent_hp, 82);
    assert_eq!(b.last_hit, Some(HitResult::Good));
}

#[test]
fn damage_stops_at_zero() {
    let mut b = BattleResource::new();
    for _ in 0..6 {
        b.damage_player(15);
    }
    assert_eq!(b.player_hp, 10);
    b.damage_player(15);
    assert_eq!(b.player_hp, 0);
    b.damage_player(15);
    assert_eq!(b.player_hp, 0);
    b.opponent_hp = 12;
    b.damage_opponent(12, HitResult::Perfect);
    assert_eq!(b.opponent_hp, 0);
}

#[test]
fn defeat_when_player_down() {
    let mut b = BattleResource::new();
    b.player_hp = 0;
    assert_eq!(b.check_win_lose_conditions(), Some(GameState::Defeat));
    assert!(b.game_over);
    assert_eq!(b.check_win_lose_conditions(), None);
}

#[test]
fn victory_when_opponent_down() {
    let mut b = BattleResource::new();
    b.opponent_hp = 0;
    assert_eq!(b.check_win_lose_conditions(), Some(GameState::Victory));
    assert!(b.game_over);
    assert_eq!(b.check_win_lose_conditions(), None);
}

#[test]
fn defeat_wins_over_victory() {
    let mut b = BattleResource::new();
    b.player_hp = 0;
    b.opponent_hp = 0;
    assert_eq!(b.check_win_lose_conditions(), Some(GameState::Defeat));
}

#[test]
fn no_switch_while_both_standing() {
    let mut b = BattleResource::new();
    b.player_hp = 1;
    b.opponent_hp = 1;
    assert_eq!(b.check_win_lose_conditions(), None);
    assert!(!b.game_over);
}

#[test]
fn hit_flash_counts_down_and_clears() {
    let mut b = BattleResource::new();
    b.damage_opponent(6, HitResult::Good);
    b.update_hit_flash_timer(100_000);
    assert_eq!(b.hit_flash_timer_us, 200_000);
    assert_eq!(b.last_hit, Some(HitResult::Good));
    b.update_hit_flash_timer(200_000);
    assert_eq!(b.hit_flash_timer_us, 0);
    assert_eq!(b.last_hit, None);
    b.update_hit_flash_timer(1_000);
    assert_eq!(b.hit_flash_timer_us, 0);
}

#[test]
fn hit_flash_overshoot_clears() {
    let mut b = BattleResource::new();
    b.damage_player(15);
    b.update_hit_flash_timer(16_667);
    assert_eq!(b.hit_flash_timer_us, 483_333);
    b.update_hit_flash_timer(600_000);
    assert_eq!(b.hit_flash_timer_us, 0);
    assert_eq!(b.last_hit, None);
}

#[test]
fn reset_restores_fresh_battle() {
    let mut b = BattleResource::new();
    b.damage_player(40);
    b.damage_opponent(30, HitResult::Good);
    b.game_over = true;
    b.reset();
    assert_eq!(b.player_hp, 100);
    assert_eq!(b.opponent_hp, 100);
    assert_eq!(b.last_hit, None);
    assert_eq!(b.hit_flash_timer_us, 0);
    assert!(!b.game_over);
}

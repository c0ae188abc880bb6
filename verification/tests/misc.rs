use crab_rhythm::audio::{drum_schedule, noise_bits, Drum, DrumHit};
use crab_rhythm::battle::{BattleResource, HitResult};
use crab_rhythm::beat::{update_beat, BeatResource, PULSE_SCALE};
use crab_rhythm::crab::{crab_reaction, CrabReaction};
use crab_rhythm::game::reset_game_state;
use crab_rhythm::scoring::ScoreResource;
use crab_rhythm::states::{menu_input, result_input, GameState};
use crab_rhythm::ui::{feedback_label, hit_feedback, hp_bar_percent, result_title};
use crab_rhythm::wav::encode_wav;

#[test]
fn beat_pulse_follows_beat() {
    let mut beat = BeatResource::default();
    beat.reset();
    assert_eq!(beat.beat_pulse, 0);
    update_beat(&mut beat, 333_333);
    assert_eq!(beat.song_time_us, 333_333);
    assert_eq!(beat.beat_pulse, 30_000_030);
    update_beat(&mut beat, 333_334);
    // 666_667 us is just past the second beat
    assert_eq!(beat.beat_pulse, PULSE_SCALE - 30);
    update_beat(&mut beat, 0);
    assert_eq!(beat.song_time_us, 666_667);
}

#[test]
fn beat_pulse_full_on_the_beat() {
    let mut beat = BeatResource::new();
    beat.reset();
    update_beat(&mut beat, 2_000_000);
    assert_eq!(beat.beat_pulse, PULSE_SCALE);
}

#[test]
fn stopped_song_does_not_move() {
    let mut beat = BeatResource::new();
    update_beat(&mut beat, 1_000_000);
    assert_eq!(beat.song_time_us, 0);
    assert_eq!(beat.beat_pulse, 0);
    assert!(!beat.is_playing);
}

#[test]
fn new_game_resets_all() {
    let mut beat = BeatResource::new();
    beat.song_time_us = 77;
    let mut battle = BattleResource::new();
    battle.damage_player(15);
    battle.game_over = true;
    let mut score = ScoreResource::new();
    score.score = 10;
    score.misses = 2;
    reset_game_state(&mut beat, &mut battle, &mut score);
    assert_eq!(beat.song_time_us, 0);
    assert!(beat.is_playing);
    assert_eq!(battle.player_hp, 100);
    assert!(!battle.game_over);
    assert_eq!(score.score, 0);
    assert_eq!(score.misses, 0);
}

#[test]
fn menu_and_result_navigation() {
    assert_eq!(menu_input(false, false), None);
    assert_eq!(menu_input(true, false), Some(GameState::Playing));
    assert_eq!(menu_input(false, true), Some(GameState::Playing));
    assert_eq!(result_input(false, false), None);
    assert_eq!(result_input(true, false), Some(GameState::Playing));
    assert_eq!(result_input(false, true), Some(GameState::Menu));
    assert_eq!(result_input(true, true), Some(GameState::Menu));
    assert_eq!(GameState::default(), GameState::Menu);
}

#[test]
fn crab_reactions() {
    let mut b = BattleResource::new();
    assert_eq!(crab_reaction(true, &b), CrabReaction::Rest);
    assert_eq!(crab_reaction(false, &b), CrabReaction::Rest);
    b.damage_player(15);
    assert_eq!(crab_reaction(true, &b), CrabReaction::Shake);
    assert_eq!(crab_reaction(false, &b), CrabReaction::Steady);
    b.damage_opponent(12, HitResult::Perfect);
    assert_eq!(crab_reaction(true, &b), CrabReaction::Steady);
    assert_eq!(crab_reaction(false, &b), CrabReaction::Recoil);
    b.last_hit = None;
    assert_eq!(crab_reaction(false, &b), CrabReaction::Rise);
}

#[test]
fn hud_values() {
    assert_eq!(hp_bar_percent(100), 100);
    assert_eq!(hp_bar_percent(85), 85);
    assert_eq!(hp_bar_percent(0), 0);
    assert_eq!(hp_bar_percent(250), 100);
    let mut b = BattleResource::new();
    assert_eq!(hit_feedback(&b), None);
    b.damage_opponent(6, HitResult::Good);
    assert_eq!(hit_feedback(&b), Some(HitResult::Good));
    b.update_hit_flash_timer(300_000);
    assert_eq!(hit_feedback(&b), None);
    assert_eq!(feedback_label(HitResult::Perfect), "PERFECT!");
    assert_eq!(feedback_label(HitResult::Good), "GOOD!");
    assert_eq!(feedback_label(HitResult::Miss), "MISS...");
    assert_eq!(result_title(GameState::Victory), "VICTORY!");
    assert_eq!(result_title(GameState::Defeat), "DEFEAT...");
}

#[test]
fn wav_header_and_samples() {
    let bytes = encode_wav(&[-1i16, 2, i16::MIN, i16::MAX], 44100);
    let mut expected: Vec<u8> = Vec::new();
    expected.extend_from_slice(b"RIFF");
    expected.extend_from_slice(&(36u32 + 8).to_le_bytes());
    expected.extend_from_slice(b"WAVE");
    expected.extend_from_slice(b"fmt ");
    expected.extend_from_slice(&16u32.to_le_bytes());
    expected.extend_from_slice(&1u16.to_le_bytes());
    expected.extend_from_slice(&1u16.to_le_bytes());
    expected.extend_from_slice(&44100u32.to_le_bytes());
    expected.extend_from_slice(&88200u32.to_le_bytes());
    expected.extend_from_slice(&2u16.to_le_bytes());
    expected.extend_from_slice(&16u16.to_le_bytes());
    expected.extend_from_slice(b"data");
    expected.extend_from_slice(&8u32.to_le_bytes());
    for s in [-1i16, 2, i16::MIN, i16::MAX] {
        expected.extend_from_slice(&s.to_le_bytes());
    }
    assert_eq!(bytes, expected);
    assert_eq!(bytes.len(), 44 + 8);
}

#[test]
fn wav_empty() {
    let bytes = encode_wav(&[], 8000);
    assert_eq!(bytes.len(), 44);
    assert_eq!(&bytes[4..8], &36u32.to_le_bytes());
    assert_eq!(&bytes[40..44], &0u32.to_le_bytes());
}

#[test]
fn drum_track_layout() {
    let hits = drum_schedule();
    assert_eq!(hits.len(), 16 * 18);
    let first: Vec<DrumHit> = hits[..18].to_vec();
    let expected = vec![
        DrumHit { step: 0, drum: Drum::Kick },
        DrumHit { step: 8, drum: Drum::Kick },
        DrumHit { step: 4, drum: Drum::Snare },
        DrumHit { step: 12, drum: Drum::Snare },
        DrumHit { step: 0, drum: Drum::ClosedHat },
        DrumHit { step: 2, drum: Drum::ClosedHat },
        DrumHit { step: 4, drum: Drum::ClosedHat },
        DrumHit { step: 6, drum: Drum::ClosedHat },
        DrumHit { step: 8, drum: Drum::ClosedHat },
        DrumHit { step: 10, drum: Drum::ClosedHat },
        DrumHit { step: 12, drum: Drum::ClosedHat },
        DrumHit { step: 14, drum: Drum::OpenHat },
        DrumHit { step: 0, drum: Drum::Bass(0) },
        DrumHit { step: 3, drum: Drum::Bass(2) },
        DrumHit { step: 6, drum: Drum::Bass(1) },
        DrumHit { step: 8, drum: Drum::Bass(3) },
        DrumHit { step: 11, drum: Drum::Bass(0) },
        DrumHit { step: 14, drum: Drum::Bass(1) },
    ];
    assert_eq!(first, expected);
    assert_eq!(hits[18], DrumHit { step: 32, drum: Drum::Kick });
    assert_eq!(hits[hits.len() - 1], DrumHit { step: 15 * 32 + 14, drum: Drum::Bass(1) });
}

#[test]
fn noise_is_the_lcg_top_bits() {
    let lcg = |seed: u64| {
        seed.wrapping_mul(6364136223846793005).wrapping_add(1442695040888963407) >> 11
    };
    for seed in [0u64, 1, 0xDEAD, 12345, u64::MAX] {
        assert_eq!(noise_bits(seed), lcg(seed));
        assert!(noise_bits(seed) < (1u64 << 53));
    }
    assert_eq!(noise_bits(0), 1442695040888963407 >> 11);
}

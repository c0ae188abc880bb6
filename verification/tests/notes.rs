use crab_rhythm::battle::{BattleResource, HitResult};
use crab_rhythm::chart::NoteEvent;
use crab_rhythm::notes::{mark_missed_notes, move_notes, spawn_notes, time_to_hit, Note, NoteChart};
use crab_rhythm::scoring::ScoreResource;

fn small_chart() -> NoteChart {
    NoteChart {
        events: vec![
            NoteEvent { step: 32, lane: 0 },
            NoteEvent { step: 36, lane: 2 },
            NoteEvent { step: 36, lane: 1 },
            NoteEvent { step: 40, lane: 3 },
        ],
        next_idx: 0,
    }
}

#[test]
fn time_to_hit_is_scaled_by_six() {
    // step 12 is hit at 2 s
    assert_eq!(time_to_hit(12, 0), 12_000_000);
    assert_eq!(time_to_hit(12, 2_000_000), 0);
    assert_eq!(time_to_hit(12, 2_100_000), -600_000);
}

#[test]
fn spawn_waits_for_approach_time() {
    let mut c = small_chart();
    // step 32 is hit at 16/3 s and appears 2 s earlier, at 10/3 s
    let none = spawn_notes(&mut c, 3_333_333);
    assert!(none.is_empty());
    assert_eq!(c.next_idx, 0);
    let one = spawn_notes(&mut c, 3_333_334);
    assert_eq!(one, vec![Note { lane: 0, step: 32, missed: false }]);
    assert_eq!(c.next_idx, 1);
}

#[test]
fn spawn_brings_out_all_due_notes_in_order() {
    let mut c = small_chart();
    let spawned = spawn_notes(&mut c, 4_000_000);
    assert_eq!(
        spawned,
        vec![
            Note { lane: 0, step: 32, missed: false },
            Note { lane: 2, step: 36, missed: false },
            Note { lane: 1, step: 36, missed: false },
        ]
    );
    assert_eq!(c.next_idx, 3);
    let rest = spawn_notes(&mut c, 100_000_000);
    assert_eq!(rest, vec![Note { lane: 3, step: 40, missed: false }]);
    assert_eq!(c.next_idx, 4);
    assert!(spawn_notes(&mut c, 200_000_000).is_empty());
    assert_eq!(c.next_idx, 4);
}

#[test]
fn spawn_in_two_steps_equals_one_step() {
    let mut a = small_chart();
    let mut first = spawn_notes(&mut a, 3_500_000);
    first.extend(spawn_notes(&mut a, 4_700_000));
    let mut b = small_chart();
    let once = spawn_notes(&mut b, 4_700_000);
    assert_eq!(first, once);
    assert_eq!(a.next_idx, b.next_idx);
}

#[test]
fn spawn_on_full_chart() {
    let mut c = NoteChart::default();
    assert!(spawn_notes(&mut c, 1_000_000).is_empty());
    c.reset();
    assert_eq!(c.events.len(), 316);
    assert_eq!(c.next_idx, 0);
    assert!(spawn_notes(&mut c, 0).is_empty());
    let due = spawn_notes(&mut c, 4_000_000);
    assert_eq!(due.len(), 2);
}

#[test]
fn spawn_past_end_does_nothing() {
    let mut c = small_chart();
    c.next_idx = 9;
    assert!(spawn_notes(&mut c, 100_000_000).is_empty());
    assert_eq!(c.next_idx, 9);
}

#[test]
fn move_notes_reports_time_to_hit() {
    let n = Note { lane: 1, step: 12, missed: false };
    assert_eq!(move_notes(&n, 1_000_000), Some(6_000_000));
    let m = Note { lane: 1, step: 12, missed: true };
    assert_eq!(move_notes(&m, 1_000_000), None);
}

#[test]
fn note_missed_after_delay() {
    let mut battle = BattleResource::new();
    let mut score = ScoreResource::new();
    score.combo = 4;
    score.max_combo = 4;
    let mut n = Note { lane: 1, step: 12, missed: false };
    // hit time 2 s; missed only when more than 0.2 s late
    assert!(!mark_missed_notes(&mut n, 2_200_000, &mut battle, &mut score));
    assert!(!n.missed);
    assert_eq!(battle.player_hp, 100);
    assert!(mark_missed_notes(&mut n, 2_200_001, &mut battle, &mut score));
    assert!(n.missed);
    assert_eq!(battle.player_hp, 85);
    assert_eq!(battle.last_hit, Some(HitResult::Miss));
    assert_eq!(score.misses, 1);
    assert_eq!(score.combo, 0);
    assert_eq!(score.max_combo, 4);
    // a missed note is not missed again
    assert!(!mark_missed_notes(&mut n, 9_000_000, &mut battle, &mut score));
    assert_eq!(battle.player_hp, 85);
    assert_eq!(score.misses, 1);
}

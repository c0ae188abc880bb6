use crab_rhythm::scoring::{HitTiming, ScoreResource};

fn score_with_combo(combo: u32) -> ScoreResource {
    let mut s = ScoreResource::new();
    s.combo = combo;
    s.max_combo = combo;
    s
}

#[test]
fn first_perfect_hit_scores_base_points() {
    let mut s = ScoreResource::default();
    s.record_hit(HitTiming::Perfect);
    assert_eq!(s.score, 100);
    assert_eq!(s.combo, 1);
    assert_eq!(s.max_combo, 1);
    assert_eq!(s.perfects, 1);
    assert_eq!(s.goods, 0);
    assert_eq!(s.misses, 0);
}

#[test]
fn first_good_hit_scores_base_points() {
    let mut s = ScoreResource::new();
    s.record_hit(HitTiming::Good);
    assert_eq!(s.score, 50);
    assert_eq!(s.goods, 1);
    assert_eq!(s.perfects, 0);
}

#[test]
fn tenth_hit_raises_multiplier_by_half() {
    let mut s = score_with_combo(9);
    s.record_hit(HitTiming::Perfect);
    assert_eq!(s.score, 150);
    s.record_hit(HitTiming::Good);
    assert_eq!(s.score, 150 + 75);
    assert_eq!(s.combo, 11);
}

#[test]
fn ninth_hit_still_at_base_multiplier() {
    let mut s = score_with_combo(8);
    s.record_hit(HitTiming::Perfect);
    assert_eq!(s.score, 100);
}

#[test]
fn multiplier_capped_at_four() {
    let mut s = score_with_combo(59);
    s.record_hit(HitTiming::Perfect);
    assert_eq!(s.score, 400);
    let mut t = score_with_combo(1000);
    t.record_hit(HitTiming::Perfect);
    assert_eq!(t.score, 400);
    let mut u = score_with_combo(1000);
    u.record_hit(HitTiming::Good);
    assert_eq!(u.score, 200);
    let mut v = score_with_combo(49);
    v.record_hit(HitTiming::Good);
    assert_eq!(v.score, 175);
}

#[test]
fn miss_breaks_combo_and_keeps_best() {
    let mut s = ScoreResource::new();
    for _ in 0..5 {
        s.record_hit(HitTiming::Perfect);
    }
    s.record_miss();
    assert_eq!(s.combo, 0);
    assert_eq!(s.max_combo, 5);
    assert_eq!(s.misses, 1);
    assert_eq!(s.score, 500);
    s.record_hit(HitTiming::Good);
    assert_eq!(s.combo, 1);
    assert_eq!(s.max_combo, 5);
}

#[test]
fn every_judged_note_tallied_once_and_score_never_drops() {
    let mut s = ScoreResource::new();
    let mut last = 0;
    for i in 0..40u32 {
        if i % 7 == 3 {
            s.record_miss();
        } else if i % 2 == 0 {
            s.record_hit(HitTiming::Perfect);
        } else {
            s.record_hit(HitTiming::Good);
        }
        assert!(s.score >= last);
        last = s.score;
        assert_eq!(s.perfects + s.goods + s.misses, i + 1);
        assert!(s.combo <= s.max_combo);
    }
}

#[test]
fn reset_clears_everything() {
    let mut s = score_with_combo(12);
    s.score = 999;
    s.perfects = 3;
    s.goods = 4;
    s.misses = 5;
    s.reset();
    assert_eq!(s.score, 0);
    assert_eq!(s.combo, 0);
    assert_eq!(s.max_combo, 0);
    assert_eq!(s.perfects, 0);
    assert_eq!(s.goods, 0);
    assert_eq!(s.misses, 0);
}

#[test]
fn overflow_guards() {
    let mut s = ScoreResource::new();
    assert!(s.can_record_hit(HitTiming::Perfect));
    assert!(s.can_record_miss());
    s.score = u32::MAX - 100;
    assert!(s.can_record_hit(HitTiming::Perfect));
    s.score = u32::MAX - 99;
    assert!(!s.can_record_hit(HitTiming::Perfect));
    assert!(s.can_record_hit(HitTiming::Good));
    s.misses = u32::MAX;
    assert!(!s.can_record_miss());
    let mut t = ScoreResource::new();
    t.combo = u32::MAX;
    t.max_combo = u32::MAX;
    assert!(!t.can_record_hit(HitTiming::Good));
}

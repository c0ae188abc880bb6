use vstd::prelude::*;

use crate::constants::{GOOD_SCORE, PERFECT_SCORE};

verus! {

/// The score and hit statistics of the current game.
pub struct ScoreResource {
    pub score: u32,
    pub combo: u32,
    pub max_combo: u32,
    pub perfects: u32,
    pub goods: u32,
    pub misses: u32,
}

/// How well a note was hit.
#[derive(Clone, Copy, Debug, PartialEq, Eq, Structural)]
pub enum HitTiming {
    Perfect,
    Good,
}

/// Points a hit is worth before the combo multiplier.
pub open spec fn base_points(timing: HitTiming) -> nat {
    match timing {
        HitTiming::Perfect => PERFECT_SCORE as nat,
        HitTiming::Good => GOOD_SCORE as nat,
    }
}

/// Full tens of combo that raise the multiplier: each adds 0.5x, and the
/// multiplier stops at 4.0x, that is after six of them.
pub open spec fn combo_bonus_steps(combo: nat) -> nat {
    if combo / 10 < 6 {
        combo / 10
    } else {
        6
    }
}

/// The combo multiplier counted in halves: 2 means 1.0x, 8 means 4.0x.
pub open spec fn multiplier_halves(combo: nat) -> nat {
    2 + combo_bonus_steps(combo)
}

/// Points a hit scores when it brings the combo to `combo`: its base points
/// (100 or 50) times the multiplier, that is half its base points for each
/// half of the multiplier.
pub open spec fn hit_points(timing: HitTiming, combo: nat) -> nat {
    match timing {
        HitTiming::Perfect => 50 * multiplier_halves(combo),
        HitTiming::Good => 25 * multiplier_halves(combo),
    }
}

/// The points of a hit are its base points times the combo multiplier.
pub proof fn lemma_hit_points_is_base_times_multiplier(timing: HitTiming, combo: nat)
    ensures
        hit_points(timing, combo) == base_points(timing) * multiplier_halves(combo) / 2,
{
    let h = multiplier_halves(combo);
    match timing {
        HitTiming::Perfect => {
            assert(100 * h / 2 == 50 * h);
        },
        HitTiming::Good => {
            assert(50 * h / 2 == 25 * h);
        },
    }
}

impl ScoreResource {
    /// The combo never exceeds the best combo of the game.
    pub open spec fn wf(&self) -> bool {
        self.combo <= self.max_combo
    }

    /// A hit of this timing can be counted without any counter overflowing.
    pub open spec fn hit_fits(&self, timing: HitTiming) -> bool {
        &&& self.combo < u32::MAX
        &&& self.perfects < u32::MAX
        &&& self.goods < u32::MAX
        &&& self.score + hit_points(timing, (self.combo + 1) as nat) <= u32::MAX
    }

    /// A miss can be counted without the miss counter overflowing.
    pub open spec fn miss_fits(&self) -> bool {
        self.misses < u32::MAX
    }

    /// A fresh score: every counter is zero.
    pub fn new() -> (s: Self)
        ensures
            s.score == 0,
            s.combo == 0,
            s.max_combo == 0,
            s.perfects == 0,
            s.goods == 0,
            s.misses == 0,
            s.wf(),
    {
        ScoreResource { score: 0, combo: 0, max_combo: 0, perfects: 0, goods: 0, misses: 0 }
    }

    /// Sets every counter back to zero.
    pub fn reset(&mut self)
        ensures
            final(self).score == 0,
            final(self).combo == 0,
            final(self).max_combo == 0,
            final(self).perfects == 0,
            final(self).goods == 0,
            final(self).misses == 0,
            final(self).wf(),
    {
        self.score = 0;
        self.combo = 0;
        self.max_combo = 0;
        self.perfects = 0;
        self.goods = 0;
        self.misses = 0;
    }

    /// Whether `record_hit` may be called with this timing.
    pub fn can_record_hit(&self, timing: HitTiming) -> (ok: bool)
        ensures
            ok == self.hit_fits(timing),
    {
        if self.combo == u32::MAX || self.perfects == u32::MAX || self.goods == u32::MAX {
            return false;
        }
        let points = points_for(timing, self.combo + 1);
        points <= u32::MAX - self.score
    }

    /// Whether `record_miss` may be called.
    pub fn can_record_miss(&self) -> (ok: bool)
        ensures
            ok == self.miss_fits(),
    {
        self.misses < u32::MAX
    }

    /// Counts a hit: the combo grows by one, the best combo follows it, the
    /// hit's timing is tallied, and the score grows by the hit's base points
    /// times the multiplier of the new combo.
    pub fn record_hit(&mut self, timing: HitTiming)
        requires
            old(self).hit_fits(timing),
        ensures
            *final(self) == scored_hit(*old(self), timing),
            old(self).wf() ==> final(self).wf(),
    {
        self.combo = self.combo + 1;
        if self.combo > self.max_combo {
            self.max_combo = self.combo;
        }
        match timing {
            HitTiming::Perfect => {
                self.perfects = self.perfects + 1;
            },
            HitTiming::Good => {
                self.goods = self.goods + 1;
            },
        }
        let points = points_for(timing, self.combo);
        self.score = self.score + points;
    }

    /// Counts a miss: the miss is tallied and the combo is broken.
    pub fn record_miss(&mut self)
        requires
            old(self).miss_fits(),
        ensures
            *final(self) == scored_miss(*old(self)),
            final(self).wf(),
    {
        self.misses = self.misses + 1;
        self.combo = 0;
    }
}

/// The score after a hit of this timing: the combo grows by one, the best
/// combo follows it, the timing is tallied, and the score grows by the hit's
/// points for the new combo.
pub open spec fn scored_hit(s: ScoreResource, timing: HitTiming) -> ScoreResource {
    let combo = s.combo + 1;
    ScoreResource {
        score: (s.score + hit_points(timing, combo as nat)) as u32,
        combo: combo as u32,
        max_combo: if combo > s.max_combo {
            combo as u32
        } else {
            s.max_combo
        },
        perfects: if timing == HitTiming::Perfect {
            (s.perfects + 1) as u32
        } else {
            s.perfects
        },
        goods: if timing == HitTiming::Good {
            (s.goods + 1) as u32
        } else {
            s.goods
        },
        misses: s.misses,
    }
}

/// The score after a miss: the miss is tallied and the combo drops to zero;
/// nothing else changes.
pub open spec fn scored_miss(s: ScoreResource) -> ScoreResource {
    ScoreResource { misses: (s.misses + 1) as u32, combo: 0, ..s }
}

impl Default for ScoreResource {
    fn default() -> (s: Self)
        ensures
            s.score == 0,
            s.combo == 0,
            s.max_combo == 0,
            s.perfects == 0,
            s.goods == 0,
            s.misses == 0,
    {
        ScoreResource::new()
    }
}

/// Notes judged so far: hits of either timing and misses.
pub open spec fn judged(s: ScoreResource) -> int {
    s.perfects + s.goods + s.misses
}

/// The combo multiplier starts at 1.0x and is capped at 4.0x: a hit is worth
/// at least its base points and at most four times them.
pub proof fn lemma_hit_points_bounds(timing: HitTiming, combo: nat)
    ensures
        base_points(timing) <= hit_points(timing, combo) <= 4 * base_points(timing),
        combo < 10 ==> hit_points(timing, combo) == base_points(timing),
        combo >= 60 ==> hit_points(timing, combo) == 4 * base_points(timing),
{
    let h = multiplier_halves(combo);
    assert(2 <= h <= 8);
    assert(combo < 10 ==> combo / 10 == 0);
    assert(combo >= 60 ==> combo / 10 >= 6);
    match timing {
        HitTiming::Perfect => {
            assert(hit_points(timing, combo) == 100 * h / 2);
        },
        HitTiming::Good => {
            assert(hit_points(timing, combo) == 50 * h / 2);
        },
    }
}

/// A longer combo never makes a hit worth less.
pub proof fn lemma_hit_points_monotone(timing: HitTiming, shorter: nat, longer: nat)
    requires
        shorter <= longer,
    ensures
        hit_points(timing, shorter) <= hit_points(timing, longer),
{
    assert(shorter / 10 <= longer / 10) by (nonlinear_arith)
        requires
            shorter <= longer,
    ;
    let hs = multiplier_halves(shorter);
    let hl = multiplier_halves(longer);
    assert(hs <= hl);
    match timing {
        HitTiming::Perfect => {
            assert(hit_points(timing, shorter) == 100 * hs / 2);
            assert(hit_points(timing, longer) == 100 * hl / 2);
        },
        HitTiming::Good => {
            assert(hit_points(timing, shorter) == 50 * hs / 2);
            assert(hit_points(timing, longer) == 50 * hl / 2);
        },
    }
}

/// The score never goes down, and every judged note, hit or missed, is
/// tallied exactly once.
pub proof fn lemma_score_tallies(s: ScoreResource, timing: HitTiming)
    ensures
        s.hit_fits(timing) ==> scored_hit(s, timing).score >= s.score,
        s.hit_fits(timing) ==> judged(scored_hit(s, timing)) == judged(s) + 1,
        s.miss_fits() ==> scored_miss(s).score == s.score,
        s.miss_fits() ==> judged(scored_miss(s)) == judged(s) + 1,
{
}

/// The multiplier rule: 1.0x below a combo of ten, and each further full ten
/// of combo adds exactly 0.5x, until the multiplier stops at 4.0x from a
/// combo of sixty on.
pub proof fn lemma_multiplier_steps(combo: nat)
    ensures
        multiplier_halves(combo) == 2 + (if combo / 10 <= 6 {
            combo / 10
        } else {
            6
        }),
        combo < 10 ==> multiplier_halves(combo) == 2,
        combo < 50 ==> multiplier_halves(combo + 10) == multiplier_halves(combo) + 1,
        combo % 10 != 9 ==> multiplier_halves(combo + 1) == multiplier_halves(combo),
        combo >= 60 ==> multiplier_halves(combo) == 8,
{
    assert((combo + 10) / 10 == combo / 10 + 1);
    assert(combo % 10 != 9 ==> (combo + 1) / 10 == combo / 10);
}

/// What a hit is worth: a perfect hit is worth 100 points and a good hit 50,
/// times the multiplier 1.0x + 0.5x per full ten of combo, capped at 4.0x.
pub proof fn lemma_hit_points_rule(combo: nat)
    ensures
        hit_points(HitTiming::Perfect, combo) == 100 + 50 * (if combo / 10 <= 6 {
            combo / 10
        } else {
            6
        }),
        hit_points(HitTiming::Good, combo) == 50 + 25 * (if combo / 10 <= 6 {
            combo / 10
        } else {
            6
        }),
        combo < 50 ==> hit_points(HitTiming::Perfect, combo + 10) == hit_points(
            HitTiming::Perfect,
            combo,
        ) + 50,
        combo < 50 ==> hit_points(HitTiming::Good, combo + 10) == hit_points(HitTiming::Good, combo)
            + 25,
        hit_points(HitTiming::Perfect, combo) == 2 * hit_points(HitTiming::Good, combo),
{
    lemma_multiplier_steps(combo);
}

/// What a hit does to the score: the combo grows by one, the best combo is
/// the larger of the old best and the new combo, exactly the hit's timing is
/// tallied, misses stay, and the score grows by the hit's points for the new
/// combo.
pub proof fn lemma_hit_effect(s: ScoreResource, timing: HitTiming)
    requires
        s.hit_fits(timing),
    ensures
        scored_hit(s, timing).combo == s.combo + 1,
        scored_hit(s, timing).max_combo == (if s.max_combo > s.combo {
            s.max_combo as int
        } else {
            s.combo + 1
        }),
        scored_hit(s, timing).max_combo >= scored_hit(s, timing).combo,
        timing == HitTiming::Perfect ==> scored_hit(s, timing).perfects == s.perfects + 1
            && scored_hit(s, timing).goods == s.goods,
        timing == HitTiming::Good ==> scored_hit(s, timing).goods == s.goods + 1
            && scored_hit(s, timing).perfects == s.perfects,
        scored_hit(s, timing).misses == s.misses,
        scored_hit(s, timing).score == s.score + hit_points(timing, (s.combo + 1) as nat),
{
}

/// What a miss does to the score: the combo drops to zero, one miss is
/// tallied, and the score, the best combo and the hit tallies stay.
pub proof fn lemma_miss_effect(s: ScoreResource)
    requires
        s.miss_fits(),
    ensures
        scored_miss(s).combo == 0,
        scored_miss(s).misses == s.misses + 1,
        scored_miss(s).score == s.score,
        scored_miss(s).max_combo == s.max_combo,
        scored_miss(s).perfects == s.perfects,
        scored_miss(s).goods == s.goods,
{
}

/// Points of a hit that brings the combo to `combo`.
fn points_for(timing: HitTiming, combo: u32) -> (points: u32)
    ensures
        points == hit_points(timing, combo as nat),
        points <= 4 * PERFECT_SCORE,
{
    let base: u32 = match timing {
        HitTiming::Perfect => PERFECT_SCORE,
        HitTiming::Good => GOOD_SCORE,
    };
    let tens = combo / 10;
    let steps: u32 = if tens < 6 {
        tens
    } else {
        6
    };
    let halves = 2 + steps;
    assert(base * halves <= 800) by (nonlinear_arith)
        requires
            base <= 100,
            halves <= 8,
    ;
    base * halves / 2
}

} // verus!

use vstd::prelude::*;

use crate::constants::{LANE_COUNT, STEPS_PER_BAR};

verus! {

/// One note of the chart: the sixteenth-note step at which it must be hit
/// (a step lasts 1/6 s, so the hit time is `step / 6` seconds) and its lane.
#[derive(Clone, Copy, Debug, PartialEq, Eq, Structural)]
pub struct NoteEvent {
    pub step: u32,
    pub lane: usize,
}

/// The first bar that holds notes.
pub const FIRST_BAR: u32 = 2;

/// The number of bars the chart spans (the last bar holding notes is bar 29).
pub const CHART_BARS: u32 = 30;

/// The number of notes in the chart.
pub const CHART_LEN: usize = 316;

// ── The bar patterns: (step within the bar, lane) ──────────────────────────

/// Bars 2-5: simple quarter notes.
pub open spec fn quarter_pattern() -> Seq<(u32, usize)> {
    seq![(0u32, 0usize), (4, 2), (8, 3), (12, 1)]
}

/// Bars 6-9: eighth notes.
pub open spec fn eighth_pattern() -> Seq<(u32, usize)> {
    seq![(0u32, 0usize), (2, 1), (4, 2), (6, 3), (8, 3), (10, 2), (12, 1), (14, 0)]
}

/// Bars 10-13: syncopated.
pub open spec fn syncopated_pattern() -> Seq<(u32, usize)> {
    seq![(0u32, 0usize), (3, 2), (4, 3), (6, 1), (8, 2), (9, 3), (12, 0), (12, 1), (14, 2)]
}

/// Bars 14-17: dense.
pub open spec fn dense_pattern() -> Seq<(u32, usize)> {
    seq![
        (0u32, 0usize), (1, 1), (3, 2), (4, 3),
        (6, 0), (7, 1), (8, 2), (9, 3),
        (10, 0), (11, 1), (12, 2), (13, 3),
    ]
}

/// Bars 18-25 ("boss mode"): the pattern depends on the bar modulo 4.
pub open spec fn boss_pattern(bar_mod: int) -> Seq<(u32, usize)> {
    if bar_mod == 0 {
        seq![
            (0u32, 0usize), (0, 1), (2, 2), (4, 3), (4, 2),
            (6, 1), (8, 0), (8, 3), (10, 2), (12, 1), (12, 0),
            (14, 3), (14, 2),
        ]
    } else if bar_mod == 1 {
        seq![
            (0u32, 0usize), (1, 1), (2, 2), (3, 3),
            (4, 3), (5, 2), (6, 1), (7, 0),
            (8, 0), (9, 1), (10, 2), (11, 3),
            (12, 2), (13, 1), (14, 0), (15, 3),
        ]
    } else if bar_mod == 2 {
        seq![
            (0u32, 0usize), (0, 2), (3, 1), (3, 3), (6, 0),
            (8, 2), (8, 0), (9, 3), (11, 1), (12, 3), (14, 0), (14, 2),
        ]
    } else {
        seq![
            (0u32, 1usize), (2, 0), (2, 2), (4, 3), (5, 1),
            (6, 0), (7, 2), (8, 1), (8, 3), (10, 0), (11, 3),
            (12, 1), (13, 2), (14, 0), (15, 3),
        ]
    }
}

/// Bars 26-29: the finale.
pub open spec fn finale_pattern() -> Seq<(u32, usize)> {
    seq![
        (0u32, 0usize), (0, 1), (0, 2), (0, 3),
        (4, 0), (4, 3), (6, 1), (6, 2),
        (8, 0), (9, 1), (10, 2), (11, 3),
        (12, 0), (12, 1), (12, 2), (12, 3),
        (14, 0), (14, 3),
    ]
}

/// The pattern played in a bar; bars outside 2-29 are silent.
pub open spec fn bar_pattern(bar: int) -> Seq<(u32, usize)> {
    if 2 <= bar < 6 {
        quarter_pattern()
    } else if 6 <= bar < 10 {
        eighth_pattern()
    } else if 10 <= bar < 14 {
        syncopated_pattern()
    } else if 14 <= bar < 18 {
        dense_pattern()
    } else if 18 <= bar < 26 {
        boss_pattern(bar % 4)
    } else if 26 <= bar < 30 {
        finale_pattern()
    } else {
        seq![]
    }
}

/// The notes of a bar, in the order its pattern lists them.
pub open spec fn bar_events(bar: int) -> Seq<NoteEvent> {
    bar_pattern(bar).map_values(
        |p: (u32, usize)| NoteEvent { step: (bar * STEPS_PER_BAR + p.0) as u32, lane: p.1 },
    )
}

/// The notes of the first `bars` bars, bar after bar.
pub open spec fn chart_through(bars: nat) -> Seq<NoteEvent>
    decreases bars,
{
    if bars == 0 {
        seq![]
    } else {
        chart_through((bars - 1) as nat) + bar_events(bars - 1)
    }
}

/// The whole chart.
pub open spec fn full_chart() -> Seq<NoteEvent> {
    chart_through(CHART_BARS as nat)
}

/// The notes come in order of their hit times.
pub open spec fn steps_sorted(notes: Seq<NoteEvent>) -> bool {
    forall|i: int, j: int| 0 <= i < j < notes.len() ==> notes[i].step <= notes[j].step
}

/// Every note lies on one of the lanes.
pub open spec fn lanes_valid(notes: Seq<NoteEvent>) -> bool {
    forall|i: int| 0 <= i < notes.len() ==> notes[i].lane < LANE_COUNT
}

/// A pattern lists steps inside one bar, in order, on valid lanes.
pub open spec fn pattern_ok(p: Seq<(u32, usize)>) -> bool {
    &&& forall|i: int, j: int| 0 <= i < j < p.len() ==> p[i].0 <= p[j].0
    &&& forall|i: int| 0 <= i < p.len() ==> p[i].0 < STEPS_PER_BAR && p[i].1 < LANE_COUNT
}

proof fn lemma_patterns_ok()
    ensures
        pattern_ok(quarter_pattern()),
        pattern_ok(eighth_pattern()),
        pattern_ok(syncopated_pattern()),
        pattern_ok(dense_pattern()),
        pattern_ok(boss_pattern(0)),
        pattern_ok(boss_pattern(1)),
        pattern_ok(boss_pattern(2)),
        pattern_ok(boss_pattern(3)),
        pattern_ok(finale_pattern()),
{
    assert(pattern_ok(quarter_pattern()));
    assert(pattern_ok(eighth_pattern()));
    assert(pattern_ok(syncopated_pattern()));
    assert(pattern_ok(dense_pattern()));
    assert(pattern_ok(boss_pattern(0)));
    assert(pattern_ok(boss_pattern(1)));
    assert(pattern_ok(boss_pattern(2)));
    assert(pattern_ok(boss_pattern(3)));
    assert(pattern_ok(finale_pattern()));
}

proof fn lemma_bar_pattern_ok(bar: int)
    ensures
        pattern_ok(bar_pattern(bar)),
{
    lemma_patterns_ok();
    if 18 <= bar < 26 {
        let m = bar % 4;
        assert(0 <= m < 4);
        assert(m == 0 || m == 1 || m == 2 || m == 3);
    }
}

/// The notes of a bar are in order, lie inside the bar, and are on valid lanes.
proof fn lemma_bar_events_ok(bar: int)
    requires
        0 <= bar < CHART_BARS,
    ensures
        steps_sorted(bar_events(bar)),
        lanes_valid(bar_events(bar)),
        forall|i: int|
            0 <= i < bar_events(bar).len() ==> bar * 16 <= #[trigger] bar_events(bar)[i].step < bar
                * 16 + 16,
{
    lemma_bar_pattern_ok(bar);
}

/// The first `bars` bars hold their notes in order, before step `16 * bars`.
proof fn lemma_chart_through_ok(bars: nat)
    requires
        bars <= CHART_BARS,
    ensures
        steps_sorted(chart_through(bars)),
        lanes_valid(chart_through(bars)),
        forall|i: int|
            0 <= i < chart_through(bars).len() ==> #[trigger] chart_through(bars)[i].step < bars
                * 16,
    decreases bars,
{
    if bars > 0 {
        let prev = (bars - 1) as nat;
        lemma_chart_through_ok(prev);
        lemma_bar_events_ok(prev as int);
        let a = chart_through(prev);
        let b = bar_events(prev as int);
        let c = chart_through(bars);
        assert(c == a + b);
        assert forall|i: int, j: int| 0 <= i < j < c.len() implies c[i].step <= c[j].step by {
            if j < a.len() {
                assert(c[i] == a[i] && c[j] == a[j]);
            } else if i < a.len() {
                assert(c[i] == a[i] && c[j] == b[j - a.len()]);
            } else {
                assert(c[i] == b[i - a.len()] && c[j] == b[j - a.len()]);
            }
        }
        assert forall|i: int| 0 <= i < c.len() implies c[i].lane < LANE_COUNT && #[trigger] c[i].step
            < bars * 16 by {
            if i < a.len() {
                assert(c[i] == a[i]);
            } else {
                assert(c[i] == b[i - a.len()]);
            }
        }
    }
}

/// The chart holds `CHART_LEN` notes, in order of their hit times, all on
/// valid lanes.
pub proof fn lemma_full_chart_ok()
    ensures
        steps_sorted(full_chart()),
        lanes_valid(full_chart()),
        full_chart().len() == CHART_LEN,
{
    lemma_chart_through_ok(CHART_BARS as nat);
    reveal_with_fuel(chart_through, 31);
}

/// The pattern of a bar, as a vector.
fn pattern_for_bar(bar: u32) -> (pattern: Vec<(u32, usize)>)
    ensures
        pattern@ == bar_pattern(bar as int),
{
    if 2 <= bar && bar < 6 {
        vec![(0u32, 0usize), (4, 2), (8, 3), (12, 1)]
    } else if 6 <= bar && bar < 10 {
        vec![(0u32, 0usize), (2, 1), (4, 2), (6, 3), (8, 3), (10, 2), (12, 1), (14, 0)]
    } else if 10 <= bar && bar < 14 {
        vec![(0u32, 0usize), (3, 2), (4, 3), (6, 1), (8, 2), (9, 3), (12, 0), (12, 1), (14, 2)]
    } else if 14 <= bar && bar < 18 {
        vec![
            (0u32, 0usize), (1, 1), (3, 2), (4, 3),
            (6, 0), (7, 1), (8, 2), (9, 3),
            (10, 0), (11, 1), (12, 2), (13, 3),
        ]
    } else if 18 <= bar && bar < 26 {
        let bar_mod = bar % 4;
        if bar_mod == 0 {
            vec![
                (0u32, 0usize), (0, 1), (2, 2), (4, 3), (4, 2),
                (6, 1), (8, 0), (8, 3), (10, 2), (12, 1), (12, 0),
                (14, 3), (14, 2),
            ]
        } else if bar_mod == 1 {
            vec![
                (0u32, 0usize), (1, 1), (2, 2), (3, 3),
                (4, 3), (5, 2), (6, 1), (7, 0),
                (8, 0), (9, 1), (10, 2), (11, 3),
                (12, 2), (13, 1), (14, 0), (15, 3),
            ]
        } else if bar_mod == 2 {
            vec![
                (0u32, 0usize), (0, 2), (3, 1), (3, 3), (6, 0),
                (8, 2), (8, 0), (9, 3), (11, 1), (12, 3), (14, 0), (14, 2),
            ]
        } else {
            vec![
                (0u32, 1usize), (2, 0), (2, 2), (4, 3), (5, 1),
                (6, 0), (7, 2), (8, 1), (8, 3), (10, 0), (11, 3),
                (12, 1), (13, 2), (14, 0), (15, 3),
            ]
        }
    } else if 26 <= bar && bar < 30 {
        vec![
            (0u32, 0usize), (0, 1), (0, 2), (0, 3),
            (4, 0), (4, 3), (6, 1), (6, 2),
            (8, 0), (9, 1), (10, 2), (11, 3),
            (12, 0), (12, 1), (12, 2), (12, 3),
            (14, 0), (14, 3),
        ]
    } else {
        Vec::new()
    }
}

/// Builds the note chart of the song: bars 2-29, each playing its pattern,
/// ordered by hit time. The bars are laid out one after another and every
/// pattern lists its steps in order, so the chart comes out sorted by hit
/// time as built, with notes of equal time in the order their pattern lists
/// them.
pub fn build_chart() -> (notes: Vec<NoteEvent>)
    ensures
        notes@ == full_chart(),
        steps_sorted(notes@),
        lanes_valid(notes@),
        notes.len() == CHART_LEN,
{
    let mut notes: Vec<NoteEvent> = Vec::new();
    let mut bar: u32 = FIRST_BAR;
    proof {
        reveal_with_fuel(chart_through, 3);
        assert(chart_through(2) =~= seq![]);
    }
    while bar < CHART_BARS
        invariant
            FIRST_BAR <= bar <= CHART_BARS,
            notes@ == chart_through(bar as nat),
        decreases CHART_BARS - bar,
    {
        let pattern = pattern_for_bar(bar);
        proof {
            lemma_bar_pattern_ok(bar as int);
        }
        let mut k: usize = 0;
        while k < pattern.len()
            invariant
                FIRST_BAR <= bar < CHART_BARS,
                pattern@ == bar_pattern(bar as int),
                pattern_ok(pattern@),
                k <= pattern.len(),
                notes@ == chart_through(bar as nat) + bar_events(bar as int).take(k as int),
            decreases pattern.len() - k,
        {
            let (pos, lane) = pattern[k];
            notes.push(NoteEvent { step: bar * STEPS_PER_BAR + pos, lane });
            proof {
                let events = bar_events(bar as int);
                assert(events.take(k + 1) =~= events.take(k as int).push(events[k as int]));
            }
            k = k + 1;
        }
        proof {
            let events = bar_events(bar as int);
            assert(events.take(pattern.len() as int) =~= events);
            assert(chart_through((bar + 1) as nat) == chart_through(bar as nat) + events);
        }
        bar = bar + 1;
    }
    proof {
        lemma_full_chart_ok();
    }
    notes
}

} // verus!

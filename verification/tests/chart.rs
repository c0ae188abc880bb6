use crab_rhythm::chart::{build_chart, CHART_LEN};
use crab_rhythm::constants::LANE_COUNT;

/// The chart as the float-timed layout describes it: (hit time in seconds, lane),
/// sorted by hit time with a stable sort.
fn float_chart() -> Vec<(f64, usize)> {
    let sixteenth: f64 = 60.0 / 90.0 / 4.0;
    let mut notes: Vec<(f64, usize)> = Vec::new();
    let mut add = |bar: usize, pos: usize, lane: usize| {
        notes.push(((bar * 16 + pos) as f64 * sixteenth, lane));
    };
    for bar in 2..6 {
        for &(pos, lane) in &[(0usize, 0usize), (4, 2), (8, 3), (12, 1)] {
            add(bar, pos, lane);
        }
    }
    for bar in 6..10 {
        for &(pos, lane) in &[(0usize, 0usize), (2, 1), (4, 2), (6, 3), (8, 3), (10, 2), (12, 1), (14, 0)] {
            add(bar, pos, lane);
        }
    }
    for bar in 10..14 {
        for &(pos, lane) in &[(0usize, 0usize), (3, 2), (4, 3), (6, 1), (8, 2), (9, 3), (12, 0), (12, 1), (14, 2)] {
            add(bar, pos, lane);
        }
    }
    for bar in 14..18 {
        for &(pos, lane) in &[
            (0usize, 0usize), (1, 1), (3, 2), (4, 3), (6, 0), (7, 1), (8, 2), (9, 3), (10, 0), (11, 1),
            (12, 2), (13, 3),
        ] {
            add(bar, pos, lane);
        }
    }
    for bar in 18..26 {
        let pattern: &[(usize, usize)] = match bar % 4 {
            0 => &[(0, 0), (0, 1), (2, 2), (4, 3), (4, 2), (6, 1), (8, 0), (8, 3), (10, 2), (12, 1), (12, 0), (14, 3), (14, 2)],
            1 => &[(0, 0), (1, 1), (2, 2), (3, 3), (4, 3), (5, 2), (6, 1), (7, 0), (8, 0), (9, 1), (10, 2), (11, 3), (12, 2), (13, 1), (14, 0), (15, 3)],
            2 => &[(0, 0), (0, 2), (3, 1), (3, 3), (6, 0), (8, 2), (8, 0), (9, 3), (11, 1), (12, 3), (14, 0), (14, 2)],
            _ => &[(0, 1), (2, 0), (2, 2), (4, 3), (5, 1), (6, 0), (7, 2), (8, 1), (8, 3), (10, 0), (11, 3), (12, 1), (13, 2), (14, 0), (15, 3)],
        };
        for &(pos, lane) in pattern {
            add(bar, pos, lane);
        }
    }
    for bar in 26..30 {
        for &(pos, lane) in &[
            (0usize, 0usize), (0, 1), (0, 2), (0, 3), (4, 0), (4, 3), (6, 1), (6, 2), (8, 0), (9, 1),
            (10, 2), (11, 3), (12, 0), (12, 1), (12, 2), (12, 3), (14, 0), (14, 3),
        ] {
            add(bar, pos, lane);
        }
    }
    notes.sort_by(|a, b| a.0.partial_cmp(&b.0).unwrap());
    notes
}

#[test]
fn chart_has_all_notes() {
    let chart = build_chart();
    assert_eq!(chart.len(), CHART_LEN);
    assert_eq!(chart.len(), 316);
}

#[test]
fn chart_matches_float_timed_layout() {
    let chart = build_chart();
    let expected = float_chart();
    assert_eq!(chart.len(), expected.len());
    for (event, (time, lane)) in chart.iter().zip(expected.iter()) {
        assert_eq!(event.lane, *lane);
        let seconds = event.step as f64 / 6.0;
        assert!((seconds - time).abs() < 1e-9, "step {} vs {}", event.step, time);
    }
}

#[test]
fn chart_sorted_and_on_lanes() {
    let chart = build_chart();
    for w in chart.windows(2) {
        assert!(w[0].step <= w[1].step);
    }
    for e in &chart {
        assert!(e.lane < LANE_COUNT);
    }
}

#[test]
fn chart_ends() {
    let chart = build_chart();
    assert_eq!(chart[0].step, 32);
    assert_eq!(chart[0].lane, 0);
    assert_eq!(chart[1].step, 36);
    assert_eq!(chart[1].lane, 2);
    let last = chart[chart.len() - 1];
    assert_eq!(last.step, 29 * 16 + 14);
    assert_eq!(last.lane, 3);
}

#[test]
fn chart_bar_counts() {
    let chart = build_chart();
    let count = |bar: u32| chart.iter().filter(|e| e.step / 16 == bar).count();
    assert_eq!(count(0), 0);
    assert_eq!(count(1), 0);
    assert_eq!(count(2), 4);
    assert_eq!(count(6), 8);
    assert_eq!(count(10), 9);
    assert_eq!(count(14), 12);
    assert_eq!(count(18), 12);
    assert_eq!(count(19), 15);
    assert_eq!(count(20), 13);
    assert_eq!(count(21), 16);
    assert_eq!(count(26), 18);
    assert_eq!(count(30), 0);
}

use vstd::prelude::*;

use crate::battle::{player_damaged, BattleResource};
use crate::chart::{build_chart, full_chart, steps_sorted, NoteEvent};
use crate::constants::{
    APPROACH_TIME_US, MICROS_PER_SECOND, MISS_DELAY_US, MISS_PLAYER_DAMAGE,
    STEPS_PER_SECOND,
};
use crate::scoring::{scored_miss, ScoreResource};

verus! {

// ── Time ────────────────────────────────────────────────────────────────────

/// Time from `song_time_us` until the hit time of a note at `step`, in
/// microseconds multiplied by `STEPS_PER_SECOND` (which makes it a whole
/// number, since a step lasts 1/6 s). Negative once the hit time has passed.
pub open spec fn time_to_hit_scaled(step: u32, song_time_us: u64) -> int {
    step * MICROS_PER_SECOND - song_time_us * STEPS_PER_SECOND
}

/// A note is due, and appears at the far end of its lane, once the song has
/// reached its hit time minus the approach time.
pub open spec fn is_due(step: u32, song_time_us: u64) -> bool {
    time_to_hit_scaled(step, song_time_us) <= APPROACH_TIME_US * STEPS_PER_SECOND
}

/// An unplayed note is missed once its hit time lies more than the miss delay
/// in the past.
pub open spec fn is_late(step: u32, song_time_us: u64) -> bool {
    time_to_hit_scaled(step, song_time_us) < -(MISS_DELAY_US * STEPS_PER_SECOND)
}

/// Computes `time_to_hit_scaled`.
pub fn time_to_hit(step: u32, song_time_us: u64) -> (t: i128)
    ensures
        t == time_to_hit_scaled(step, song_time_us),
{
    (step as i128) * (MICROS_PER_SECOND as i128) - (song_time_us as i128) * (
    STEPS_PER_SECOND as i128)
}

/// Whether a note at `step` is late at `song_time_us`.
pub fn note_is_late(step: u32, song_time_us: u64) -> (late: bool)
    ensures
        late == is_late(step, song_time_us),
{
    time_to_hit(step, song_time_us) < -((MISS_DELAY_US as i128) * (STEPS_PER_SECOND as i128))
}

/// The note timing rules, with a note at `step` hit at `step / 6` seconds:
/// it appears from 2 s before its hit time on, and it is missed once its hit
/// time lies more than 0.2 s in the past.
pub proof fn lemma_note_timing_rules(step: u32, song_time_us: u64)
    ensures
        is_due(step, song_time_us) <==> 6 * song_time_us + 12_000_000 >= step * 1_000_000,
        is_late(step, song_time_us) <==> 6 * song_time_us > step * 1_000_000 + 1_200_000,
        time_to_hit_scaled(step, song_time_us) == step * 1_000_000 - 6 * song_time_us,
{
}

/// Being due only becomes more true as the song goes on.
pub proof fn lemma_due_monotone(step: u32, t1: u64, t2: u64)
    requires
        t1 <= t2,
        is_due(step, t1),
    ensures
        is_due(step, t2),
{
}

/// Once late, a note stays late.
pub proof fn lemma_late_monotone(step: u32, t1: u64, t2: u64)
    requires
        t1 <= t2,
        is_late(step, t1),
    ensures
        is_late(step, t2),
{
}

/// A note that is late is also due.
pub proof fn lemma_late_implies_due(step: u32, t: u64)
    requires
        is_late(step, t),
    ensures
        is_due(step, t),
{
}

// ── Notes on the lanes ──────────────────────────────────────────────────────

/// A note travelling down its lane.
#[derive(Clone, Copy, Debug, PartialEq, Eq, Structural)]
pub struct Note {
    pub lane: usize,
    pub step: u32,
    pub missed: bool,
}

/// The note that appears for a chart event.
pub open spec fn note_for(event: NoteEvent) -> Note {
    Note { lane: event.lane, step: event.step, missed: false }
}

/// The notes that appear for a run of chart events.
pub open spec fn notes_for(events: Seq<NoteEvent>) -> Seq<Note> {
    events.map_values(|e: NoteEvent| note_for(e))
}

/// The chart of the current game and the index of the next note to appear.
pub struct NoteChart {
    pub events: Vec<NoteEvent>,
    pub next_idx: usize,
}

impl NoteChart {
    /// An empty chart.
    pub fn new() -> (c: Self)
        ensures
            c.events@.len() == 0,
            c.next_idx == 0,
    {
        NoteChart { events: Vec::new(), next_idx: 0 }
    }

    /// Loads the song's chart and starts it from its first note.
    pub fn reset(&mut self)
        ensures
            final(self).events@ == full_chart(),
            final(self).next_idx == 0,
            steps_sorted(final(self).events@),
    {
        self.events = build_chart();
        self.next_idx = 0;
    }
}

impl Default for NoteChart {
    fn default() -> (c: Self)
        ensures
            c.events@.len() == 0,
            c.next_idx == 0,
    {
        NoteChart::new()
    }
}

/// Spawning from index `from` at `song_time_us` stops at index `to`: every
/// note in between is due, and the note at `to`, if any, is not.
pub open spec fn spawn_stop(events: Seq<NoteEvent>, from: int, to: int, song_time_us: u64) -> bool {
    &&& forall|i: int| from <= i < to ==> is_due(#[trigger] events[i].step, song_time_us)
    &&& to == events.len() || !is_due(events[to].step, song_time_us)
}

/// Spawning at one time and then at a later time brings out the same notes,
/// in the same order, as spawning once at the later time.
pub proof fn lemma_spawn_in_two_steps(
    events: Seq<NoteEvent>,
    a: int,
    b: int,
    c: int,
    t1: u64,
    t2: u64,
)
    requires
        0 <= a <= b <= c <= events.len(),
        t1 <= t2,
        spawn_stop(events, a, b, t1),
        spawn_stop(events, b, c, t2),
    ensures
        spawn_stop(events, a, c, t2),
        notes_for(events.subrange(a, b)) + notes_for(events.subrange(b, c)) == notes_for(
            events.subrange(a, c),
        ),
{
    assert forall|i: int| a <= i < c implies is_due(#[trigger] events[i].step, t2) by {
        if i < b {
            lemma_due_monotone(events[i].step, t1, t2);
        }
    }
    assert(notes_for(events.subrange(a, b)) + notes_for(events.subrange(b, c)) =~= notes_for(
        events.subrange(a, c),
    ));
}

/// Brings out the notes that are due at `song_time_us`: starting at the next
/// note, every note in turn while it is due, stopping at the first that is
/// not. Returns the notes to put on the lanes, in chart order.
///
/// When the chart is sorted by hit time and every note before the next one
/// was due already, afterwards exactly the notes due at `song_time_us` have
/// been brought out.
pub fn spawn_notes(chart: &mut NoteChart, song_time_us: u64) -> (spawned: Vec<Note>)
    ensures
        final(chart).events@ == old(chart).events@,
        old(chart).next_idx >= old(chart).events.len() ==> final(chart).next_idx == old(
            chart,
        ).next_idx && spawned@.len() == 0,
        old(chart).next_idx < old(chart).events.len() ==> {
            let events = old(chart).events@;
            let a = old(chart).next_idx as int;
            let b = final(chart).next_idx as int;
            &&& a <= b <= events.len()
            &&& spawn_stop(events, a, b, song_time_us)
            &&& spawned@ == notes_for(events.subrange(a, b))
        },
        ({
            let events = old(chart).events@;
            steps_sorted(events) && (forall|i: int|
                0 <= i < old(chart).next_idx && i < events.len() ==> is_due(
                    #[trigger] events[i].step,
                    song_time_us,
                )) ==> forall|i: int|
                0 <= i < events.len() ==> (i < final(chart).next_idx <==> is_due(
                    #[trigger] events[i].step,
                    song_time_us,
                ))
        }),
{
    let ghost events = chart.events@;
    let ghost start = chart.next_idx as int;
    let mut spawned: Vec<Note> = Vec::new();
    proof {
        if start < events.len() {
            assert(notes_for(events.subrange(start, start)) =~= seq![]);
        }
    }
    while chart.next_idx < chart.events.len()
        invariant_except_break
            chart.events@ == events,
            0 <= start,
            start < events.len() ==> start <= chart.next_idx <= events.len(),
            start >= events.len() ==> chart.next_idx == start && spawned@.len() == 0,
            forall|i: int| start <= i < chart.next_idx ==> is_due(#[trigger] events[i].step, song_time_us),
            start < events.len() ==> spawned@ == notes_for(events.subrange(start, chart.next_idx as int)),
        ensures
            chart.events@ == events,
            0 <= start,
            start < events.len() ==> start <= chart.next_idx <= events.len(),
            start >= events.len() ==> chart.next_idx == start && spawned@.len() == 0,
            forall|i: int| start <= i < chart.next_idx ==> is_due(#[trigger] events[i].step, song_time_us),
            start < events.len() ==> spawned@ == notes_for(events.subrange(start, chart.next_idx as int)),
            chart.next_idx >= events.len() || !is_due(events[chart.next_idx as int].step, song_time_us),
        decreases chart.events.len() - chart.next_idx,
    {
        let event = chart.events[chart.next_idx];
        let until_hit = time_to_hit(event.step, song_time_us);
        if until_hit <= (APPROACH_TIME_US as i128) * (STEPS_PER_SECOND as i128) {
            spawned.push(Note { lane: event.lane, step: event.step, missed: false });
            proof {
                let old_idx = chart.next_idx as int;
                assert(notes_for(events.subrange(start, old_idx + 1))
                    =~= notes_for(events.subrange(start, old_idx)).push(
                    note_for(events[old_idx])));
            }
            chart.next_idx = chart.next_idx + 1;
        } else {
            break;
        }
    }
    proof {
        let b = chart.next_idx as int;
        if steps_sorted(events) && (forall|i: int|
            0 <= i < start && i < events.len() ==> is_due(#[trigger] events[i].step, song_time_us)) {
            assert forall|i: int| 0 <= i < events.len() implies (i < b <==> is_due(
                #[trigger] events[i].step,
                song_time_us,
            )) by {
                if i >= b {
                    assert(events[b].step <= events[i].step);
                }
            }
        }
    }
    spawned
}

/// Where a note stands on its lane: the time until its hit time (scaled as
/// in `time_to_hit_scaled`), from which its distance to the hit zone follows.
/// A missed note no longer moves.
pub fn move_notes(note: &Note, song_time_us: u64) -> (until_hit: Option<i128>)
    ensures
        until_hit == (if note.missed {
            None
        } else {
            Some(time_to_hit_scaled(note.step, song_time_us) as i128)
        }),
{
    if note.missed {
        None
    } else {
        Some(time_to_hit(note.step, song_time_us))
    }
}

/// Checks one note for a miss: an unplayed note whose hit time is more than
/// the miss delay in the past is marked missed, the player takes the miss
/// damage and the miss is scored. Returns whether the note was missed now
/// (the note is then removed from the lane).
pub fn mark_missed_notes(
    note: &mut Note,
    song_time_us: u64,
    battle: &mut BattleResource,
    score: &mut ScoreResource,
) -> (missed_now: bool)
    requires
        !old(note).missed && is_late(old(note).step, song_time_us) ==> old(score).miss_fits(),
    ensures
        missed_now == (!old(note).missed && is_late(old(note).step, song_time_us)),
        final(note).lane == old(note).lane,
        final(note).step == old(note).step,
        final(note).missed == (old(note).missed || missed_now),
        missed_now ==> *final(battle) == player_damaged(*old(battle), MISS_PLAYER_DAMAGE)
            && *final(score) == scored_miss(*old(score)),
        !missed_now ==> *final(battle) == *old(battle) && *final(score) == *old(score),
        old(battle).wf() ==> final(battle).wf(),
        old(score).wf() ==> final(score).wf(),
{
    if note.missed {
        return false;
    }
    if note_is_late(note.step, song_time_us) {
        note.missed = true;
        battle.damage_player(MISS_PLAYER_DAMAGE);
        score.record_miss();
        true
    } else {
        false
    }
}

} // verus!

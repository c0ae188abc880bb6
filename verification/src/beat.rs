use vstd::prelude::*;

use crate::constants::BPM;

verus! {

/// Microseconds in one minute: the beat pulse is counted in this many parts.
pub const PULSE_SCALE: u32 = 60_000_000;

/// The song clock.
///
/// `beat_pulse` is a sawtooth synced to the beat, counted in
/// `1 / PULSE_SCALE` parts: `PULSE_SCALE` right on a beat, falling towards
/// zero until the next one.
pub struct BeatResource {
    pub song_time_us: u64,
    pub is_playing: bool,
    pub beat_pulse: u32,
}

/// The beat pulse at `song_time_us`: one minus the fraction of the current
/// beat that has elapsed. Beats elapsed are `song_time_us * BPM / 60 s`, so
/// the elapsed fraction is `(song_time_us * BPM) % PULSE_SCALE` parts.
pub open spec fn pulse_at(song_time_us: u64) -> u32 {
    (PULSE_SCALE - (song_time_us * BPM) % (PULSE_SCALE as int)) as u32
}

/// The pulse is a sawtooth synced to the beat: it always lies in
/// `(0, PULSE_SCALE]`, together with the beats elapsed (counted in
/// `PULSE_SCALE` parts per beat) it makes up a whole number of beats, so it
/// is full right on a beat and falls by `BPM` parts per microsecond until the
/// next one; and it repeats every 2 s, that is every three beats.
pub proof fn lemma_pulse_sawtooth(t: u64)
    ensures
        0 < pulse_at(t) <= PULSE_SCALE,
        (pulse_at(t) + t * BPM) % (PULSE_SCALE as int) == 0,
        (t * BPM) % (PULSE_SCALE as int) == 0 ==> pulse_at(t) == PULSE_SCALE,
        t <= u64::MAX - 2_000_000 ==> pulse_at((t + 2_000_000) as u64) == pulse_at(t),
{
    let s = PULSE_SCALE as int;
    let x = t * BPM;
    let r = x % s;
    assert(0 <= r < s);
    vstd::arithmetic::div_mod::lemma_fundamental_div_mod(x, s);
    assert(pulse_at(t) == s - r);
    assert(pulse_at(t) + x == (x / s + 1) * s) by (nonlinear_arith)
        requires
            x == s * (x / s) + r,
            pulse_at(t) == s - r,
    ;
    vstd::arithmetic::div_mod::lemma_mod_multiples_basic(x / s + 1, s);
    if t <= u64::MAX - 2_000_000 {
        let t2 = (t + 2_000_000) as u64;
        assert(t2 * BPM == s * 3 + x);
        vstd::arithmetic::div_mod::lemma_mod_multiples_vanish(3, x, s);
    }
}

impl BeatResource {
    /// A stopped clock at the start of the song.
    pub fn new() -> (b: Self)
        ensures
            b.song_time_us == 0,
            !b.is_playing,
            b.beat_pulse == 0,
    {
        BeatResource { song_time_us: 0, is_playing: false, beat_pulse: 0 }
    }

    /// Rewinds the song to its start and starts it playing.
    pub fn reset(&mut self)
        ensures
            final(self).song_time_us == 0,
            final(self).is_playing,
            final(self).beat_pulse == 0,
    {
        self.song_time_us = 0;
        self.is_playing = true;
        self.beat_pulse = 0;
    }
}

impl Default for BeatResource {
    fn default() -> (b: Self)
        ensures
            b.song_time_us == 0,
            !b.is_playing,
            b.beat_pulse == 0,
    {
        BeatResource::new()
    }
}

/// Advances a playing song by `delta_us` microseconds and updates the beat
/// pulse; a stopped song does not move.
pub fn update_beat(beat: &mut BeatResource, delta_us: u64)
    requires
        old(beat).is_playing ==> old(beat).song_time_us + delta_us <= u64::MAX,
    ensures
        final(beat).is_playing == old(beat).is_playing,
        old(beat).is_playing ==> final(beat).song_time_us == old(beat).song_time_us + delta_us
            && final(beat).beat_pulse == pulse_at(final(beat).song_time_us),
        !old(beat).is_playing ==> *final(beat) == *old(beat),
        old(beat).is_playing ==> 0 < final(beat).beat_pulse <= PULSE_SCALE,
{
    if beat.is_playing {
        let song = beat.song_time_us + delta_us;
        let scale = PULSE_SCALE as u64;
        let elapsed = (song % scale) * BPM % scale;
        proof {
            vstd::arithmetic::div_mod::lemma_mul_mod_noop_left(song as int, BPM as int, scale as int);
        }
        beat.song_time_us = song;
        beat.beat_pulse = (scale - elapsed) as u32;
    }
}

} // verus!

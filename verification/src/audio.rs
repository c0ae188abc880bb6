use vstd::prelude::*;

verus! {

// ── The drum loop of the generated beat ─────────────────────────────────────

/// Sixteenth-note steps in the generated track: 32 bars of 16 steps.
pub const SONG_STEPS: u32 = 512;

/// Sixteenth-note steps in the repeated pattern (two bars).
pub const LOOP_STEPS: u32 = 32;

/// An instrument of the drum loop. A bass note names its pitch by index:
/// 0 = E2, 1 = A2, 2 = G2, 3 = D2.
#[derive(Clone, Copy, Debug, PartialEq, Eq, Structural)]
pub enum Drum {
    Kick,
    Snare,
    ClosedHat,
    OpenHat,
    Bass(usize),
}

/// One instrument struck at one step of the track.
#[derive(Clone, Copy, Debug, PartialEq, Eq, Structural)]
pub struct DrumHit {
    pub step: u32,
    pub drum: Drum,
}

/// Steps of the pattern where the kick sounds.
pub open spec fn kick_steps() -> Seq<u32> {
    seq![0u32, 8]
}

/// Steps of the pattern where the snare sounds.
pub open spec fn snare_steps() -> Seq<u32> {
    seq![4u32, 12]
}

/// Steps of the pattern where a hi-hat sounds (every eighth note).
pub open spec fn hihat_steps() -> Seq<u32> {
    seq![0u32, 2, 4, 6, 8, 10, 12, 14]
}

/// Steps of the pattern where the hi-hat is played open.
pub open spec fn open_hat_steps() -> Seq<u32> {
    seq![14u32]
}

/// Steps and pitches of the syncopated bass line.
pub open spec fn bass_steps() -> Seq<(u32, usize)> {
    seq![(0u32, 0usize), (3, 2), (6, 1), (8, 3), (11, 0), (14, 1)]
}

/// A hi-hat step is played closed unless it is played open.
pub open spec fn plays_closed() -> spec_fn(u32) -> bool {
    |p: u32| !open_hat_steps().contains(p)
}

/// Steps of the pattern where the closed hi-hat sounds.
pub open spec fn closed_hat_steps() -> Seq<u32> {
    hihat_steps().filter(plays_closed())
}

/// One instrument struck at each of `steps`, counted from `base`.
pub open spec fn hits_of(steps: Seq<u32>, drum: Drum, base: int) -> Seq<DrumHit> {
    steps.map_values(|p: u32| DrumHit { step: (base + p) as u32, drum })
}

/// The bass notes of `line`, counted from `base`.
pub open spec fn bass_hits(line: Seq<(u32, usize)>, base: int) -> Seq<DrumHit> {
    line.map_values(|b: (u32, usize)| DrumHit { step: (base + b.0) as u32, drum: Drum::Bass(b.1) })
}

/// One pass of the pattern starting at step `base`, in the order the track
/// mixes them: kicks, snares, closed hi-hats, open hi-hats, bass.
pub open spec fn loop_hits(base: int) -> Seq<DrumHit> {
    hits_of(kick_steps(), Drum::Kick, base) + hits_of(snare_steps(), Drum::Snare, base) + hits_of(
        closed_hat_steps(),
        Drum::ClosedHat,
        base,
    ) + hits_of(open_hat_steps(), Drum::OpenHat, base) + bass_hits(bass_steps(), base)
}

/// The first `passes` passes of the pattern.
pub open spec fn schedule_through(passes: nat) -> Seq<DrumHit>
    decreases passes,
{
    if passes == 0 {
        seq![]
    } else {
        schedule_through((passes - 1) as nat) + loop_hits((passes - 1) * LOOP_STEPS)
    }
}

/// The whole track: the pattern repeated to fill `SONG_STEPS` steps.
pub open spec fn drum_schedule_spec() -> Seq<DrumHit> {
    schedule_through((SONG_STEPS / LOOP_STEPS) as nat)
}

/// The closed hi-hat plays every eighth note of the pattern except the last,
/// where the open hi-hat plays.
pub proof fn lemma_closed_hat_steps()
    ensures
        closed_hat_steps() == seq![0u32, 2, 4, 6, 8, 10, 12],
{
    reveal_with_fuel(Seq::<_>::filter, 9);
    let f = plays_closed();
    assert(!open_hat_steps().contains(0u32)) by {
        assert(open_hat_steps()[0] == 14);
    }
    assert(f(0u32) && f(2u32) && f(4u32) && f(6u32) && f(8u32) && f(10u32) && f(12u32)) by {
        assert(open_hat_steps().len() == 1 && open_hat_steps()[0] == 14);
    }
    assert(!f(14u32)) by {
        assert(open_hat_steps()[0] == 14);
    }
    assert(closed_hat_steps() =~= seq![0u32, 2, 4, 6, 8, 10, 12]);
}

proof fn lemma_loop_hits_len(base: int)
    ensures
        loop_hits(base).len() == 18,
{
    lemma_closed_hat_steps();
}

/// One pass of the pattern started 32 steps later is the same pass moved by
/// 32 steps.
proof fn lemma_loop_hits_shift(base: int, i: int)
    requires
        0 <= base <= 1000,
        0 <= i < 18,
    ensures
        loop_hits(base + 32)[i].drum == loop_hits(base)[i].drum,
        loop_hits(base + 32)[i].step == loop_hits(base)[i].step + 32,
        loop_hits(base)[i].step < base + 16,
{
    lemma_closed_hat_steps();
    lemma_loop_hits_len(base);
    lemma_loop_hits_len(base + 32);
    let k = hits_of(kick_steps(), Drum::Kick, base);
    let sn = hits_of(snare_steps(), Drum::Snare, base);
    let c = hits_of(closed_hat_steps(), Drum::ClosedHat, base);
    let o = hits_of(open_hat_steps(), Drum::OpenHat, base);
    let b = bass_hits(bass_steps(), base);
    let k2 = hits_of(kick_steps(), Drum::Kick, base + 32);
    let sn2 = hits_of(snare_steps(), Drum::Snare, base + 32);
    let c2 = hits_of(closed_hat_steps(), Drum::ClosedHat, base + 32);
    let o2 = hits_of(open_hat_steps(), Drum::OpenHat, base + 32);
    let b2 = bass_hits(bass_steps(), base + 32);
    assert(loop_hits(base) == k + sn + c + o + b);
    assert(loop_hits(base + 32) == k2 + sn2 + c2 + o2 + b2);
    if i < 2 {
    } else if i < 4 {
    } else if i < 11 {
        assert(c[i - 4].step == base + closed_hat_steps()[i - 4]);
    } else if i < 12 {
    } else {
    }
}

/// The drum track is the pattern played 16 times: 288 hits, every pass
/// holding 18, and each hit recurring in the next pass 32 steps (two bars)
/// later on the same instrument.
pub proof fn lemma_drum_track_repeats()
    ensures
        drum_schedule_spec().len() == 288,
        forall|i: int|
            0 <= i < 270 ==> (#[trigger] drum_schedule_spec()[i + 18]).drum
                == drum_schedule_spec()[i].drum && drum_schedule_spec()[i + 18].step
                == drum_schedule_spec()[i].step + 32,
{
    lemma_schedule_repeats(16);
}

proof fn lemma_schedule_repeats(passes: nat)
    requires
        passes <= 16,
    ensures
        schedule_through(passes).len() == 18 * passes,
        forall|i: int|
            0 <= i < 18 * passes - 18 ==> (#[trigger] schedule_through(passes)[i + 18]).drum
                == schedule_through(passes)[i].drum && schedule_through(passes)[i + 18].step
                == schedule_through(passes)[i].step + 32,
    decreases passes,
{
    if passes > 0 {
        let n = (passes - 1) as nat;
        lemma_schedule_repeats(n);
        let prev = schedule_through(n);
        let last = loop_hits(n * LOOP_STEPS);
        lemma_loop_hits_len(n * LOOP_STEPS);
        let all = schedule_through(passes);
        assert(all == prev + last);
        assert forall|i: int| 0 <= i < 18 * passes - 18 implies (#[trigger] all[i + 18]).drum
            == all[i].drum && all[i + 18].step == all[i].step + 32 by {
            if i + 18 < 18 * n {
                assert(all[i] == prev[i] && all[i + 18] == prev[i + 18]);
            } else {
                let j = i - 18 * (n - 1);
                assert(0 <= j < 18);
                let before = schedule_through((n - 1) as nat);
                lemma_schedule_repeats((n - 1) as nat);
                lemma_loop_hits_len((n - 1) * LOOP_STEPS);
                assert(prev == before + loop_hits((n - 1) * LOOP_STEPS));
                assert(all[i] == prev[i]);
                assert(prev[i] == loop_hits((n - 1) * LOOP_STEPS)[j]);
                assert(all[i + 18] == last[j]);
                assert(n * LOOP_STEPS == (n - 1) * LOOP_STEPS + 32);
                lemma_loop_hits_shift((n - 1) * LOOP_STEPS, j);
            }
        }
    }
}

fn steps_contain(steps: &Vec<u32>, x: u32) -> (found: bool)
    ensures
        found == steps@.contains(x),
{
    let mut i: usize = 0;
    while i < steps.len()
        invariant
            i <= steps@.len(),
            forall|j: int| 0 <= j < i ==> steps@[j] != x,
        decreases steps@.len() - i,
    {
        if steps[i] == x {
            return true;
        }
        i = i + 1;
    }
    false
}

fn push_hits(out: &mut Vec<DrumHit>, steps: &Vec<u32>, drum: Drum, base: u32)
    requires
        forall|i: int| 0 <= i < steps@.len() ==> base + steps@[i] <= u32::MAX,
    ensures
        final(out)@ == old(out)@ + hits_of(steps@, drum, base as int),
{
    let mut i: usize = 0;
    while i < steps.len()
        invariant
            i <= steps@.len(),
            forall|j: int| 0 <= j < steps@.len() ==> base + steps@[j] <= u32::MAX,
            out@ == old(out)@ + hits_of(steps@.take(i as int), drum, base as int),
        decreases steps@.len() - i,
    {
        out.push(DrumHit { step: base + steps[i], drum });
        proof {
            assert(hits_of(steps@.take(i + 1), drum, base as int) =~= hits_of(
                steps@.take(i as int),
                drum,
                base as int,
            ).push(DrumHit { step: (base + steps@[i as int]) as u32, drum }));
        }
        i = i + 1;
    }
    assert(steps@.take(steps@.len() as int) =~= steps@);
}

/// The drum track of the generated beat: a two-bar pattern repeated over the
/// 32 bars of the song. In each pass the kicks, snares, closed hi-hats
/// (every eighth note where the open hi-hat does not play), open hi-hats and
/// the bass line are struck in that order; the track mixes them in this
/// order.
pub fn drum_schedule() -> (hits: Vec<DrumHit>)
    ensures
        hits@ == drum_schedule_spec(),
{
    let kicks: Vec<u32> = vec![0, 8];
    let snares: Vec<u32> = vec![4, 12];
    let hihats: Vec<u32> = vec![0, 2, 4, 6, 8, 10, 12, 14];
    let open_hats: Vec<u32> = vec![14];
    let bass: Vec<(u32, usize)> = vec![(0, 0), (3, 2), (6, 1), (8, 3), (11, 0), (14, 1)];
    let repeats = SONG_STEPS / LOOP_STEPS;

    let mut out: Vec<DrumHit> = Vec::new();
    let mut rep: u32 = 0;
    while rep < repeats
        invariant
            repeats == SONG_STEPS / LOOP_STEPS,
            rep <= repeats,
            kicks@ == kick_steps(),
            snares@ == snare_steps(),
            hihats@ == hihat_steps(),
            open_hats@ == open_hat_steps(),
            bass@ == bass_steps(),
            out@ == schedule_through(rep as nat),
        decreases repeats - rep,
    {
        let base = rep * LOOP_STEPS;
        let ghost before = out@;
        push_hits(&mut out, &kicks, Drum::Kick, base);
        push_hits(&mut out, &snares, Drum::Snare, base);
        let ghost after_snares = out@;

        let mut k: usize = 0;
        while k < hihats.len()
            invariant
                k <= hihats@.len(),
                hihats@ == hihat_steps(),
                open_hats@ == open_hat_steps(),
                base <= 480,
                out@ == after_snares + hits_of(
                    hihats@.take(k as int).filter(plays_closed()),
                    Drum::ClosedHat,
                    base as int,
                ),
            decreases hihats@.len() - k,
        {
            let pos = hihats[k];
            let open = steps_contain(&open_hats, pos);
            proof {
                let s = hihats@.take(k + 1);
                assert(s.drop_last() =~= hihats@.take(k as int));
                assert(s.last() == pos);
                reveal_with_fuel(Seq::<_>::filter, 1);
                assert(plays_closed()(pos) == !open);
            }
            if !open {
                out.push(DrumHit { step: base + pos, drum: Drum::ClosedHat });
                proof {
                    let s = hihats@.take(k + 1);
                    let prev = hihats@.take(k as int).filter(plays_closed());
                    assert(s.filter(plays_closed()) == prev.push(pos));
                    assert(hits_of(prev.push(pos), Drum::ClosedHat, base as int) =~= hits_of(
                        prev,
                        Drum::ClosedHat,
                        base as int,
                    ).push(DrumHit { step: (base + pos) as u32, drum: Drum::ClosedHat }));
                }
            } else {
                proof {
                    let s = hihats@.take(k + 1);
                    assert(s.filter(plays_closed()) == hihats@.take(k as int).filter(plays_closed()));
                }
            }
            k = k + 1;
        }
        assert(hihats@.take(hihats@.len() as int) =~= hihats@);
        push_hits(&mut out, &open_hats, Drum::OpenHat, base);

        let ghost before_bass = out@;
        let mut b: usize = 0;
        while b < bass.len()
            invariant
                b <= bass@.len(),
                bass@ == bass_steps(),
                base <= 480,
                out@ == before_bass + bass_hits(bass@.take(b as int), base as int),
            decreases bass@.len() - b,
        {
            let (pos, note) = bass[b];
            out.push(DrumHit { step: base + pos, drum: Drum::Bass(note) });
            proof {
                assert(bass_hits(bass@.take(b + 1), base as int) =~= bass_hits(
                    bass@.take(b as int),
                    base as int,
                ).push(DrumHit { step: (base + pos) as u32, drum: Drum::Bass(note) }));
            }
            b = b + 1;
        }
        assert(bass@.take(bass@.len() as int) =~= bass@);
        proof {
            assert(out@ =~= before + loop_hits(base as int));
            assert(schedule_through((rep + 1) as nat) == schedule_through(rep as nat) + loop_hits(
                rep * LOOP_STEPS,
            ));
        }
        rep = rep + 1;
    }
    out
}

// ── Noise ───────────────────────────────────────────────────────────────────

/// Multiplier of the noise generator (a 64-bit linear congruential step).
pub const NOISE_MULTIPLIER: u64 = 6364136223846793005;

/// Increment of the noise generator.
pub const NOISE_INCREMENT: u64 = 1442695040888963407;

/// The 53 random bits the noise generator draws from `seed`: one wrapping
/// linear congruential step, keeping the top 53 bits. Divided by 2^53 they
/// give a noise value in [0, 1).
pub fn noise_bits(seed: u64) -> (bits: u64)
    ensures
        bits == ((seed as nat * NOISE_MULTIPLIER as nat + NOISE_INCREMENT as nat) % 0x1_0000_0000_0000_0000)
            / 2048,
        bits < 0x20_0000_0000_0000,
{
    let v = seed.wrapping_mul(NOISE_MULTIPLIER).wrapping_add(NOISE_INCREMENT);
    proof {
        let m = (seed as nat * NOISE_MULTIPLIER as nat) % 0x1_0000_0000_0000_0000;
        vstd::arithmetic::div_mod::lemma_add_mod_noop(
            (seed as nat * NOISE_MULTIPLIER as nat) as int,
            NOISE_INCREMENT as int,
            0x1_0000_0000_0000_0000,
        );
        assert(v >> 11u64 == v / 2048) by (bit_vector);
        assert(v / 2048 < 0x20_0000_0000_0000) by (bit_vector);
    }
    v >> 11
}

} // verus!

use vstd::prelude::*;

verus! {

// ── The RIFF/WAVE format of the generated beat: 16-bit mono PCM ────────────

/// Number of audio channels written (mono).
pub const NUM_CHANNELS: u16 = 1;

/// Bits per sample written.
pub const BITS_PER_SAMPLE: u16 = 16;

/// Size in bytes of the header before the sample data.
pub const WAV_HEADER_LEN: usize = 44;

/// A 16-bit value as two little-endian bytes.
pub open spec fn le16(x: nat) -> Seq<u8> {
    seq![(x % 256) as u8, (x / 256 % 256) as u8]
}

/// A 32-bit value as four little-endian bytes.
pub open spec fn le32(x: nat) -> Seq<u8> {
    seq![
        (x % 256) as u8,
        (x / 256 % 256) as u8,
        (x / 65536 % 256) as u8,
        (x / 16777216 % 256) as u8,
    ]
}

/// Four ASCII characters as bytes (a chunk tag).
pub open spec fn tag(a: char, b: char, c: char, d: char) -> Seq<u8> {
    seq![a as u8, b as u8, c as u8, d as u8]
}

/// The two's complement bit pattern of a sample.
pub open spec fn sample_bits(s: i16) -> nat {
    if s < 0 {
        (s + 65536) as nat
    } else {
        s as nat
    }
}

/// The samples as little-endian 16-bit words, one after another.
pub open spec fn sample_bytes(samples: Seq<i16>) -> Seq<u8>
    decreases samples.len(),
{
    if samples.len() == 0 {
        seq![]
    } else {
        sample_bytes(samples.drop_last()) + le16(sample_bits(samples.last()))
    }
}

/// The 44-byte header of a mono 16-bit PCM file holding `num_samples`
/// samples at `sample_rate` samples per second.
pub open spec fn wav_header(num_samples: nat, sample_rate: nat) -> Seq<u8> {
    let data_size = num_samples * 2;
    tag('R', 'I', 'F', 'F') + le32(36 + data_size) + tag('W', 'A', 'V', 'E') + tag('f', 'm', 't', ' ')
        + le32(16) + le16(1) + le16(NUM_CHANNELS as nat) + le32(sample_rate) + le32(
        sample_rate * (NUM_CHANNELS as nat) * (BITS_PER_SAMPLE as nat) / 8,
    ) + le16((NUM_CHANNELS * BITS_PER_SAMPLE / 8) as nat) + le16(BITS_PER_SAMPLE as nat) + tag(
        'd',
        'a',
        't',
        'a',
    ) + le32(data_size)
}

/// The whole file: the header, then the samples.
pub open spec fn wav_file(samples: Seq<i16>, sample_rate: nat) -> Seq<u8> {
    wav_header(samples.len(), sample_rate) + sample_bytes(samples)
}

/// The number four little-endian bytes stand for.
pub open spec fn read_le32(b: Seq<u8>, at: int) -> int {
    b[at] + 256 * b[at + 1] + 65536 * b[at + 2] + 16777216 * b[at + 3]
}

/// The number two little-endian bytes stand for.
pub open spec fn read_le16(b: Seq<u8>, at: int) -> int {
    b[at] + 256 * b[at + 1]
}

/// A sample's bit pattern is its two's complement: the sample itself when
/// not negative, the sample plus 2^16 when negative.
pub proof fn lemma_sample_bits(s: i16)
    ensures
        0 <= sample_bits(s) < 65536,
        sample_bits(s) == s || sample_bits(s) == s + 65536,
{
}

proof fn lemma_sample_bytes_at(samples: Seq<i16>, i: int)
    requires
        0 <= i < samples.len(),
    ensures
        sample_bytes(samples).len() == 2 * samples.len(),
        sample_bytes(samples)[2 * i] == (sample_bits(samples[i]) % 256) as u8,
        sample_bytes(samples)[2 * i + 1] == (sample_bits(samples[i]) / 256 % 256) as u8,
    decreases samples.len(),
{
    lemma_sample_bytes_len(samples);
    let init = samples.drop_last();
    lemma_sample_bytes_len(init);
    if i < samples.len() - 1 {
        lemma_sample_bytes_at(init, i);
        assert(init[i] == samples[i]);
    }
}

proof fn lemma_header_fields(num_samples: nat, sample_rate: nat)
    ensures
        wav_header(num_samples, sample_rate).len() == 44,
        wav_header(num_samples, sample_rate).subrange(4, 8) == le32(36 + 2 * num_samples),
        wav_header(num_samples, sample_rate).subrange(40, 44) == le32(2 * num_samples),
        wav_header(num_samples, sample_rate).subrange(24, 28) == le32(sample_rate),
        wav_header(num_samples, sample_rate).subrange(28, 32) == le32(sample_rate * 2),
        wav_header(num_samples, sample_rate).subrange(22, 24) == le16(1),
        wav_header(num_samples, sample_rate).subrange(34, 36) == le16(16),
{
    let data_size = num_samples * 2;
    let a = tag('R', 'I', 'F', 'F');
    let b = a + le32(36 + data_size);
    let c = b + tag('W', 'A', 'V', 'E') + tag('f', 'm', 't', ' ') + le32(16) + le16(1);
    let d = c + le16(NUM_CHANNELS as nat);
    let e = d + le32(sample_rate);
    let f = e + le32(sample_rate * (NUM_CHANNELS as nat) * (BITS_PER_SAMPLE as nat) / 8);
    let g = f + le16((NUM_CHANNELS * BITS_PER_SAMPLE / 8) as nat) + le16(BITS_PER_SAMPLE as nat);
    let h = g + tag('d', 'a', 't', 'a') + le32(data_size);
    assert(wav_header(num_samples, sample_rate) == h);
    assert(sample_rate * (NUM_CHANNELS as nat) * (BITS_PER_SAMPLE as nat) / 8 == sample_rate * 2);
    assert(b.subrange(4, 8) =~= le32(36 + data_size));
    assert(h.subrange(4, 8) =~= b.subrange(4, 8));
    assert(h.subrange(40, 44) =~= le32(data_size));
    assert(d.len() == 24);
    assert(e.subrange(24, 28) =~= le32(sample_rate));
    assert(h.subrange(24, 28) =~= e.subrange(24, 28));
    assert(f.subrange(28, 32) =~= le32(sample_rate * 2));
    assert(h.subrange(28, 32) =~= f.subrange(28, 32));
    assert(d.subrange(22, 24) =~= le16(NUM_CHANNELS as nat));
    assert(h.subrange(22, 24) =~= d.subrange(22, 24));
    assert(g.subrange(34, 36) =~= le16(BITS_PER_SAMPLE as nat));
    assert(h.subrange(34, 36) =~= g.subrange(34, 36));
}

/// The layout of a written file: 44 header bytes then two bytes per sample;
/// the RIFF size field holds the file's length minus the 8 bytes before it,
/// the data size field holds the number of sample bytes, the rate fields hold
/// the sample rate and twice it (two bytes per mono 16-bit sample), and each
/// sample sits at its place as its two's complement, low byte first.
pub proof fn lemma_wav_layout(samples: Seq<i16>, sample_rate: nat)
    requires
        samples.len() * 2 + 36 <= u32::MAX,
        sample_rate * 2 <= u32::MAX,
    ensures
        wav_file(samples, sample_rate).len() == 44 + 2 * samples.len(),
        read_le32(wav_file(samples, sample_rate), 4) == wav_file(samples, sample_rate).len() - 8,
        read_le32(wav_file(samples, sample_rate), 40) == 2 * samples.len(),
        read_le32(wav_file(samples, sample_rate), 24) == sample_rate,
        read_le32(wav_file(samples, sample_rate), 28) == 2 * sample_rate,
        read_le16(wav_file(samples, sample_rate), 22) == 1,
        read_le16(wav_file(samples, sample_rate), 34) == 16,
        forall|i: int|
            0 <= i < samples.len() ==> read_le16(wav_file(samples, sample_rate), 44 + 2 * i)
                == sample_bits(#[trigger] samples[i]),
{
    let f = wav_file(samples, sample_rate);
    let h = wav_header(samples.len(), sample_rate);
    lemma_sample_bytes_len(samples);
    lemma_header_fields(samples.len(), sample_rate);
    let n2 = 2 * samples.len();
    assert(f.subrange(0, 44) =~= h);
    lemma_read_le32_field(f, h, 4, 36 + n2);
    lemma_read_le32_field(f, h, 40, n2);
    lemma_read_le32_field(f, h, 24, sample_rate);
    lemma_read_le32_field(f, h, 28, sample_rate * 2);
    assert(h.subrange(22, 24)[0] == h[22] && h.subrange(22, 24)[1] == h[23]);
    assert(h.subrange(34, 36)[0] == h[34] && h.subrange(34, 36)[1] == h[35]);
    assert forall|i: int| 0 <= i < samples.len() implies read_le16(f, 44 + 2 * i) == sample_bits(
        #[trigger] samples[i],
    ) by {
        lemma_sample_in_file(samples, sample_rate, i);
    }
}

proof fn lemma_sample_in_file(samples: Seq<i16>, sample_rate: nat, i: int)
    requires
        0 <= i < samples.len(),
    ensures
        read_le16(wav_file(samples, sample_rate), 44 + 2 * i) == sample_bits(samples[i]),
{
    lemma_header_fields(samples.len(), sample_rate);
    lemma_sample_bytes_at(samples, i);
    lemma_sample_bits(samples[i]);
    lemma_word_after_header(
        wav_header(samples.len(), sample_rate),
        sample_bytes(samples),
        i,
        sample_bits(samples[i]),
    );
}

proof fn lemma_word_after_header(h: Seq<u8>, words: Seq<u8>, i: int, w: nat)
    requires
        h.len() == 44,
        0 <= 2 * i,
        2 * i + 1 < words.len(),
        w < 65536,
        words[2 * i] == (w % 256) as u8,
        words[2 * i + 1] == (w / 256 % 256) as u8,
    ensures
        read_le16(h + words, 44 + 2 * i) == w,
{
    let f = h + words;
    assert(f[44 + 2 * i] == words[2 * i]);
    assert(f[45 + 2 * i] == words[2 * i + 1]);
    assert(w % 256 + 256 * (w / 256 % 256) == w);
}

proof fn lemma_read_le32_field(f: Seq<u8>, h: Seq<u8>, at: int, x: nat)
    requires
        h.len() == 44,
        f.len() >= 44,
        f.subrange(0, 44) == h,
        0 <= at <= 40,
        h.subrange(at, at + 4) == le32(x),
        x <= u32::MAX,
    ensures
        read_le32(f, at) == x,
{
    lemma_le32_roundtrip(x);
    assert(f[at] == h[at] && f[at + 1] == h[at + 1] && f[at + 2] == h[at + 2] && f[at + 3] == h[at + 3]);
    assert(h[at] == h.subrange(at, at + 4)[0] && h[at + 1] == h.subrange(at, at + 4)[1]);
    assert(h[at + 2] == h.subrange(at, at + 4)[2] && h[at + 3] == h.subrange(at, at + 4)[3]);
}

proof fn lemma_le32_roundtrip(x: nat)
    requires
        x <= u32::MAX,
    ensures
        le32(x)[0] + 256 * le32(x)[1] + 65536 * le32(x)[2] + 16777216 * le32(x)[3] == x,
{
    let b0 = x % 256;
    let b1 = x / 256 % 256;
    let b2 = x / 65536 % 256;
    let b3 = x / 16777216 % 256;
    assert(x / 16777216 < 256);
    assert(b0 + 256 * b1 + 65536 * b2 + 16777216 * b3 == x);
}

fn push_le16(out: &mut Vec<u8>, x: u16)
    ensures
        final(out)@ == old(out)@ + le16(x as nat),
{
    out.push((x % 256) as u8);
    out.push((x / 256) as u8);
    assert(final(out)@ =~= old(out)@ + le16(x as nat));
}

fn push_le32(out: &mut Vec<u8>, x: u32)
    ensures
        final(out)@ == old(out)@ + le32(x as nat),
{
    out.push((x % 256) as u8);
    out.push((x / 256 % 256) as u8);
    out.push((x / 65536 % 256) as u8);
    out.push((x / 16777216) as u8);
    assert(final(out)@ =~= old(out)@ + le32(x as nat));
}

fn push_tag(out: &mut Vec<u8>, a: u8, b: u8, c: u8, d: u8)
    ensures
        final(out)@ == old(out)@ + seq![a, b, c, d],
{
    out.push(a);
    out.push(b);
    out.push(c);
    out.push(d);
    assert(final(out)@ =~= old(out)@ + seq![a, b, c, d]);
}

/// Encodes samples as a mono 16-bit PCM WAVE file.
pub fn encode_wav(samples: &[i16], sample_rate: u32) -> (bytes: Vec<u8>)
    requires
        samples@.len() * 2 + 36 <= u32::MAX,
        sample_rate * NUM_CHANNELS * BITS_PER_SAMPLE <= u32::MAX,
    ensures
        bytes@ == wav_file(samples@, sample_rate as nat),
        bytes@.len() == WAV_HEADER_LEN + 2 * samples@.len(),
{
    let num_samples = samples.len() as u32;
    let num_channels: u16 = NUM_CHANNELS;
    let bits_per_sample: u16 = BITS_PER_SAMPLE;
    let byte_rate = sample_rate * num_channels as u32 * bits_per_sample as u32 / 8;
    let block_align = num_channels * bits_per_sample / 8;
    let data_size = num_samples * 2;

    let mut out: Vec<u8> = Vec::new();
    // RIFF header
    push_tag(&mut out, 'R' as u8, 'I' as u8, 'F' as u8, 'F' as u8);
    push_le32(&mut out, 36 + data_size);
    push_tag(&mut out, 'W' as u8, 'A' as u8, 'V' as u8, 'E' as u8);
    // fmt chunk
    push_tag(&mut out, 'f' as u8, 'm' as u8, 't' as u8, ' ' as u8);
    push_le32(&mut out, 16);
    push_le16(&mut out, 1);
    push_le16(&mut out, num_channels);
    push_le32(&mut out, sample_rate);
    push_le32(&mut out, byte_rate);
    push_le16(&mut out, block_align);
    push_le16(&mut out, bits_per_sample);
    // data chunk
    push_tag(&mut out, 'd' as u8, 'a' as u8, 't' as u8, 'a' as u8);
    push_le32(&mut out, data_size);
    let ghost header = out@;
    assert(header =~= wav_header(samples@.len(), sample_rate as nat));

    let mut i: usize = 0;
    assert(samples@.take(0) =~= Seq::<i16>::empty());
    while i < samples.len()
        invariant
            i <= samples@.len(),
            header == wav_header(samples@.len(), sample_rate as nat),
            out@ == header + sample_bytes(samples@.take(i as int)),
        decreases samples@.len() - i,
    {
        let s = samples[i];
        let bits: u16 = if s < 0 {
            (s as i32 + 65536) as u16
        } else {
            s as u16
        };
        push_le16(&mut out, bits);
        proof {
            let next = samples@.take(i + 1);
            assert(next.drop_last() =~= samples@.take(i as int));
            assert(next.last() == s);
            assert(out@ =~= header + sample_bytes(next));
        }
        i = i + 1;
    }
    assert(samples@.take(samples@.len() as int) =~= samples@);
    proof {
        lemma_sample_bytes_len(samples@);
    }
    out
}

proof fn lemma_sample_bytes_len(samples: Seq<i16>)
    ensures
        sample_bytes(samples).len() == 2 * samples.len(),
    decreases samples.len(),
{
    if samples.len() > 0 {
        lemma_sample_bytes_len(samples.drop_last());
    }
}

} // verus!

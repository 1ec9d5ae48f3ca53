use vstd::prelude::*;
use vstd::bytes::*;

verus! {

/// The four bytes "RIFF".
pub open spec fn riff_tag() -> Seq<u8> {
    seq![0x52u8, 0x49u8, 0x46u8, 0x46u8]
}

/// The four bytes "WAVE".
pub open spec fn wave_tag() -> Seq<u8> {
    seq![0x57u8, 0x41u8, 0x56u8, 0x45u8]
}

/// The four bytes "fmt ".
pub open spec fn fmt_tag() -> Seq<u8> {
    seq![0x66u8, 0x6du8, 0x74u8, 0x20u8]
}

/// The four bytes "data".
pub open spec fn data_tag() -> Seq<u8> {
    seq![0x64u8, 0x61u8, 0x74u8, 0x61u8]
}

/// The 44-byte header of a mono, 16-bit PCM WAV file holding `num_samples`
/// samples at `sample_rate` hertz.
pub open spec fn wav_header(num_samples: nat, sample_rate: u32) -> Seq<u8> {
    riff_tag()
        + spec_u32_to_le_bytes((36 + 2 * num_samples) as u32)
        + wave_tag()
        + fmt_tag()
        + spec_u32_to_le_bytes(16)
        + spec_u16_to_le_bytes(1)
        + spec_u16_to_le_bytes(1)
        + spec_u32_to_le_bytes(sample_rate)
        + spec_u32_to_le_bytes((sample_rate * 2) as u32)
        + spec_u16_to_le_bytes(2)
        + spec_u16_to_le_bytes(16)
        + data_tag()
        + spec_u32_to_le_bytes((2 * num_samples) as u32)
}

/// Samples as consecutive little-endian two's-complement 16-bit words.
pub open spec fn pcm16_le(samples: Seq<i16>) -> Seq<u8>
    decreases samples.len(),
{
    if samples.len() == 0 {
        Seq::empty()
    } else {
        pcm16_le(samples.drop_last()) + spec_u16_to_le_bytes(samples.last() as u16)
    }
}

/// A complete mono 16-bit PCM WAV file.
pub open spec fn wav_file(samples: Seq<i16>, sample_rate: u32) -> Seq<u8> {
    wav_header(samples.len(), sample_rate) + pcm16_le(samples)
}

/// Whether the WAV size fields can hold a file of this many samples and the
/// byte rate fits in its field.
pub open spec fn wav_fits(num_samples: nat, sample_rate: u32) -> bool {
    &&& 2 * num_samples + 36 <= u32::MAX
    &&& sample_rate * 16 <= u32::MAX
}

fn push_tag(buf: &mut Vec<u8>, a: u8, b: u8, c: u8, d: u8)
    ensures
        final(buf)@ == old(buf)@ + seq![a, b, c, d],
{
    buf.push(a);
    buf.push(b);
    buf.push(c);
    buf.push(d);
    assert(final(buf)@ =~= old(buf)@ + seq![a, b, c, d]);
}

fn push_u32(buf: &mut Vec<u8>, x: u32)
    ensures
        final(buf)@ == old(buf)@ + spec_u32_to_le_bytes(x),
{
    let mut bytes = u32_to_le_bytes(x);
    buf.append(&mut bytes);
}

fn push_u16(buf: &mut Vec<u8>, x: u16)
    ensures
        final(buf)@ == old(buf)@ + spec_u16_to_le_bytes(x),
{
    let mut bytes = u16_to_le_bytes(x);
    buf.append(&mut bytes);
}

/// Encodes 16-bit samples as an in-memory mono WAV file at `sample_rate` hertz.
pub fn pcm_to_wav(samples: &[i16], sample_rate: u32) -> (wav: Vec<u8>)
    requires
        wav_fits(samples@.len(), sample_rate),
    ensures
        wav@ == wav_file(samples@, sample_rate),
        wav@.len() == 44 + 2 * samples@.len(),
{
    let num_channels: u16 = 1;
    let bits_per_sample: u16 = 16;
    let byte_rate: u32 = sample_rate * 16 / 8;
    let block_align: u16 = 2;
    let data_size: u32 = (samples.len() * 2) as u32;

    let mut buf: Vec<u8> = Vec::new();
    push_tag(&mut buf, 0x52, 0x49, 0x46, 0x46);
    push_u32(&mut buf, 36 + data_size);
    push_tag(&mut buf, 0x57, 0x41, 0x56, 0x45);
    push_tag(&mut buf, 0x66, 0x6d, 0x74, 0x20);
    push_u32(&mut buf, 16);
    push_u16(&mut buf, 1);
    push_u16(&mut buf, num_channels);
    push_u32(&mut buf, sample_rate);
    push_u32(&mut buf, byte_rate);
    push_u16(&mut buf, block_align);
    push_u16(&mut buf, bits_per_sample);
    push_tag(&mut buf, 0x64, 0x61, 0x74, 0x61);
    push_u32(&mut buf, data_size);

    let ghost header = buf@;
    assert(header =~= wav_header(samples@.len(), sample_rate));
    assert(samples@.take(0) =~= Seq::<i16>::empty());

    let mut i: usize = 0;
    while i < samples.len()
        invariant
            i <= samples@.len(),
            header == wav_header(samples@.len(), sample_rate),
            buf@ == header + pcm16_le(samples@.take(i as int)),
        decreases samples@.len() - i,
    {
        let s = samples[i];
        push_u16(&mut buf, #[verifier::truncate] (s as u16));
        proof {
            assert(samples@.take(i + 1).drop_last() =~= samples@.take(i as int));
            assert(samples@.take(i + 1).last() == s);
        }
        i = i + 1;
    }
    assert(samples@.take(samples@.len() as int) =~= samples@);
    proof {
        lemma_wav_read_back(samples@, sample_rate);
    }
    buf
}


proof fn lemma_pcm16_le_layout(samples: Seq<i16>)
    ensures
        pcm16_le(samples).len() == 2 * samples.len(),
        forall|k: int|
            0 <= k < samples.len() ==> #[trigger] pcm16_le(samples).subrange(2 * k, 2 * k + 2)
                == spec_u16_to_le_bytes(samples[k] as u16),
    decreases samples.len(),
{
    lemma_auto_spec_u16_to_from_le_bytes();
    if samples.len() > 0 {
        let init = samples.drop_last();
        lemma_pcm16_le_layout(init);
        let whole = pcm16_le(samples);
        let n = samples.len() - 1;
        assert forall|k: int| 0 <= k < samples.len() implies #[trigger] whole.subrange(2 * k, 2 * k + 2)
            == spec_u16_to_le_bytes(samples[k] as u16) by {
            if k < n {
                assert(whole.subrange(2 * k, 2 * k + 2) =~= pcm16_le(init).subrange(2 * k, 2 * k + 2));
                assert(init[k] == samples[k]);
            } else {
                assert(whole.subrange(2 * k, 2 * k + 2) =~= spec_u16_to_le_bytes(samples.last() as u16));
            }
        }
    }
}

/// What the encoder writes reads back: the file is 44 header bytes plus two
/// bytes per sample, the RIFF size field holds the file length minus 8, the
/// rate and data-size fields hold the sample rate and the number of sample
/// bytes, and each sample word decodes to the sample written.
pub proof fn lemma_wav_read_back(samples: Seq<i16>, sample_rate: u32)
    requires
        wav_fits(samples.len(), sample_rate),
    ensures
        wav_file(samples, sample_rate).len() == 44 + 2 * samples.len(),
        wav_file(samples, sample_rate).subrange(0, 4) == riff_tag(),
        spec_u32_from_le_bytes(wav_file(samples, sample_rate).subrange(4, 8))
            == wav_file(samples, sample_rate).len() - 8,
        spec_u32_from_le_bytes(wav_file(samples, sample_rate).subrange(24, 28)) == sample_rate,
        spec_u32_from_le_bytes(wav_file(samples, sample_rate).subrange(40, 44)) == 2
            * samples.len(),
        forall|k: int|
            0 <= k < samples.len() ==> (spec_u16_from_le_bytes(
                #[trigger] wav_file(samples, sample_rate).subrange(44 + 2 * k, 46 + 2 * k),
            ) as i16) == samples[k],
{
    lemma_auto_spec_u16_to_from_le_bytes();
    lemma_auto_spec_u32_to_from_le_bytes();
    lemma_pcm16_le_layout(samples);
    let n = samples.len();
    let w = wav_file(samples, sample_rate);
    let h = wav_header(n, sample_rate);
    assert(h.len() == 44);
    assert(w.subrange(0, 4) =~= riff_tag());
    assert(w.subrange(4, 8) =~= spec_u32_to_le_bytes((36 + 2 * n) as u32));
    assert(w.subrange(24, 28) =~= spec_u32_to_le_bytes(sample_rate));
    assert(w.subrange(40, 44) =~= spec_u32_to_le_bytes((2 * n) as u32));
    assert forall|k: int| 0 <= k < n implies (spec_u16_from_le_bytes(
        #[trigger] w.subrange(44 + 2 * k, 46 + 2 * k),
    ) as i16) == samples[k] by {
        assert(w.subrange(44 + 2 * k, 46 + 2 * k) =~= pcm16_le(samples).subrange(2 * k, 2 * k + 2));
        let x = samples[k];
        assert(((x as u16) as i16) == x) by (bit_vector);
    }
}


/// Every encoded file is a RIFF/WAVE file whose format chunk describes mono,
/// 16-bit PCM at the given rate: "RIFF" at 0, "WAVE" at 8, "fmt " at 12, a
/// 16-byte format chunk, format 1 (PCM), one channel, the sample rate, a byte
/// rate of two bytes per sample, a block of two bytes, 16 bits per sample, and
/// "data" at 36.
pub proof fn lemma_wav_format_fields(samples: Seq<i16>, sample_rate: u32)
    requires
        wav_fits(samples.len(), sample_rate),
    ensures
        wav_file(samples, sample_rate).subrange(0, 4) == seq![0x52u8, 0x49u8, 0x46u8, 0x46u8],
        wav_file(samples, sample_rate).subrange(8, 12) == seq![0x57u8, 0x41u8, 0x56u8, 0x45u8],
        wav_file(samples, sample_rate).subrange(12, 16) == seq![0x66u8, 0x6du8, 0x74u8, 0x20u8],
        spec_u32_from_le_bytes(wav_file(samples, sample_rate).subrange(16, 20)) == 16,
        spec_u16_from_le_bytes(wav_file(samples, sample_rate).subrange(20, 22)) == 1,
        spec_u16_from_le_bytes(wav_file(samples, sample_rate).subrange(22, 24)) == 1,
        spec_u32_from_le_bytes(wav_file(samples, sample_rate).subrange(24, 28)) == sample_rate,
        spec_u32_from_le_bytes(wav_file(samples, sample_rate).subrange(28, 32)) == 2
            * sample_rate,
        spec_u16_from_le_bytes(wav_file(samples, sample_rate).subrange(32, 34)) == 2,
        spec_u16_from_le_bytes(wav_file(samples, sample_rate).subrange(34, 36)) == 16,
        wav_file(samples, sample_rate).subrange(36, 40) == seq![0x64u8, 0x61u8, 0x74u8, 0x61u8],
{
    lemma_auto_spec_u16_to_from_le_bytes();
    lemma_auto_spec_u32_to_from_le_bytes();
    let n = samples.len();
    let w = wav_file(samples, sample_rate);
    let h = wav_header(n, sample_rate);
    assert(h.len() == 44);
    assert(w.subrange(0, 4) =~= riff_tag());
    assert(w.subrange(8, 12) =~= wave_tag());
    assert(w.subrange(12, 16) =~= fmt_tag());
    assert(w.subrange(16, 20) =~= spec_u32_to_le_bytes(16));
    assert(w.subrange(20, 22) =~= spec_u16_to_le_bytes(1));
    assert(w.subrange(22, 24) =~= spec_u16_to_le_bytes(1));
    assert(w.subrange(24, 28) =~= spec_u32_to_le_bytes(sample_rate));
    assert(w.subrange(28, 32) =~= spec_u32_to_le_bytes((sample_rate * 2) as u32));
    assert(w.subrange(32, 34) =~= spec_u16_to_le_bytes(2));
    assert(w.subrange(34, 36) =~= spec_u16_to_le_bytes(16));
    assert(w.subrange(36, 40) =~= data_tag());
}

} // verus!

//! In-memory PCM audio. Mono 16-bit, arbitrary sample rate.

use crate::clock::{duration_new, duration_of};
use crate::text::{decimal, owned, push_decimal, push_str};
use std::time::Duration;
use vstd::prelude::*;

verus! {

/// Recorded audio, kept only in memory and dropped after transcription. It
/// has no `Debug`: logs show it through [`AudioData::describe`], which never
/// prints the samples themselves.
#[derive(PartialEq, Eq)]
pub struct AudioData {
    sample_rate: u32,
    samples: Vec<i16>,
}

impl View for AudioData {
    /// The sample rate and the samples.
    type V = (u32, Seq<i16>);

    closed spec fn view(&self) -> (u32, Seq<i16>) {
        (self.sample_rate, self.samples@)
    }
}

impl Clone for AudioData {
    fn clone(&self) -> (r: Self)
        ensures
            r@ == self@,
    {
        let samples = self.samples.clone();
        assert(samples@ =~= self.samples@);
        AudioData { sample_rate: self.sample_rate, samples }
    }
}

/// How long `len` samples at `rate` Hz last, to the nearest nanosecond
/// (halves round up), split into whole seconds and the nanoseconds of the
/// last one; zero when the rate is zero.
pub open spec fn audio_length(len: nat, rate: nat) -> (u64, u32) {
    if rate == 0 {
        (0, 0)
    } else {
        let nanos = (len * 2_000_000_000 + rate) / (2 * rate);
        ((nanos / 1_000_000_000) as u64, (nanos % 1_000_000_000) as u32)
    }
}

/// Little-endian bytes of a 16-bit value.
pub open spec fn le16(v: u16) -> Seq<u8> {
    seq![(v % 256) as u8, (v / 256) as u8]
}

/// Little-endian bytes of a 32-bit value.
pub open spec fn le32(v: u32) -> Seq<u8> {
    seq![(v % 256) as u8, ((v / 256) % 256) as u8, ((v / 65536) % 256) as u8, (v / 16777216) as u8]
}

/// The samples as 16-bit little-endian PCM.
pub open spec fn pcm_bytes(samples: Seq<i16>) -> Seq<u8>
    decreases samples.len(),
{
    if samples.len() == 0 {
        seq![]
    } else {
        pcm_bytes(samples.drop_last()) + le16(samples.last() as u16)
    }
}

/// The 44-byte header of a mono 16-bit PCM WAV file holding `data_len`
/// bytes of samples at `rate` Hz.
pub open spec fn wav_header(rate: u32, data_len: u32) -> Seq<u8> {
    seq![82u8, 73, 70, 70] + le32((36 + data_len) as u32) + seq![87u8, 65, 86, 69] + seq![
        102u8,
        109,
        116,
        32,
    ] + le32(16) + le16(1) + le16(1) + le32(rate) + le32((rate * 2) as u32) + le16(2) + le16(16)
        + seq![100u8, 97, 116, 97] + le32(data_len)
}

/// The number that four bytes at `at` hold, read little-endian.
pub open spec fn read_le32(b: Seq<u8>, at: int) -> int {
    b[at] + 256 * b[at + 1] + 65536 * b[at + 2] + 16777216 * b[at + 3]
}

/// The number that two bytes at `at` hold, read little-endian.
pub open spec fn read_le16(b: Seq<u8>, at: int) -> int {
    b[at] + 256 * b[at + 1]
}

proof fn lemma_le32_reads_back(v: u32)
    ensures
        le32(v).len() == 4,
        read_le32(le32(v), 0) == v,
{
    let b = le32(v);
    assert(b[0] as int == v % 256);
    assert(b[1] as int == (v / 256) % 256);
    assert(b[2] as int == (v / 65536) % 256);
    assert(b[3] as int == v / 16777216);
    assert(v % 256 + 256 * ((v / 256) % 256) + 65536 * ((v / 65536) % 256) + 16777216 * (v
        / 16777216) == v) by (nonlinear_arith);
}

proof fn lemma_le16_reads_back(v: u16)
    ensures
        le16(v).len() == 2,
        read_le16(le16(v), 0) == v,
{
    let b = le16(v);
    assert(b[0] as int == v % 256);
    assert(b[1] as int == v / 256);
}

proof fn lemma_pcm_bytes(samples: Seq<i16>)
    ensures
        pcm_bytes(samples).len() == 2 * samples.len(),
        forall|i: int|
            0 <= i < samples.len() ==> read_le16(pcm_bytes(samples), #[trigger] (2 * i))
                == samples[i] as u16,
    decreases samples.len(),
{
    if samples.len() > 0 {
        let init = samples.drop_last();
        lemma_pcm_bytes(init);
        let last = samples.last() as u16;
        lemma_le16_reads_back(last);
        let b = pcm_bytes(samples);
        assert(b == pcm_bytes(init) + le16(last));
        assert forall|i: int|
            0 <= i < samples.len() implies read_le16(b, #[trigger] (2 * i)) == samples[i] as u16 by {
            if i < init.len() {
                assert(read_le16(pcm_bytes(init), 2 * i) == init[i] as u16);
                assert(b[2 * i] == pcm_bytes(init)[2 * i]);
                assert(b[2 * i + 1] == pcm_bytes(init)[2 * i + 1]);
            } else {
                assert(b[2 * i] == le16(last)[0]);
                assert(b[2 * i + 1] == le16(last)[1]);
            }
        }
    }
}

/// The WAV file of a recording says how long it is: its RIFF size field
/// holds 36 plus the sample bytes and its data size field the sample bytes,
/// which are two per sample and follow the 44-byte header, each sample
/// little-endian; the rate field holds the sample rate. This holds for
/// every recording whose byte length fits the 32-bit fields.
pub proof fn wav_sizes_match_the_samples(rate: u32, samples: Seq<i16>)
    requires
        samples.len() * 2 + 36 <= u32::MAX,
        rate * 2 <= u32::MAX,
    ensures
        ({
            let w = wav_header(rate, (samples.len() * 2) as u32) + pcm_bytes(samples);
            &&& w.len() == 44 + 2 * samples.len()
            &&& w.subrange(0, 4) == seq![82u8, 73, 70, 70]
            &&& read_le32(w, 4) == 36 + 2 * samples.len()
            &&& w.subrange(36, 40) == seq![100u8, 97, 116, 97]
            &&& read_le32(w, 40) == 2 * samples.len()
            &&& read_le32(w, 24) == rate
            &&& forall|i: int|
                0 <= i < samples.len() ==> read_le16(w, 44 + #[trigger] (2 * i)) == samples[i]
                    as u16
        }),
{
    let n = samples.len();
    let data_len = (n * 2) as u32;
    lemma_le32_reads_back((36 + data_len) as u32);
    lemma_le32_reads_back(data_len);
    lemma_le32_reads_back(rate);
    lemma_le32_reads_back(16);
    lemma_le32_reads_back((rate * 2) as u32);
    lemma_le16_reads_back(1);
    lemma_le16_reads_back(2);
    lemma_le16_reads_back(16);
    lemma_pcm_bytes(samples);
    let h = wav_header(rate, data_len);
    let p = pcm_bytes(samples);
    let w = h + p;
    assert(h.len() == 44);
    assert(h[4] == le32((36 + data_len) as u32)[0]);
    assert(h[5] == le32((36 + data_len) as u32)[1]);
    assert(h[6] == le32((36 + data_len) as u32)[2]);
    assert(h[7] == le32((36 + data_len) as u32)[3]);
    assert(h[24] == le32(rate)[0]);
    assert(h[25] == le32(rate)[1]);
    assert(h[26] == le32(rate)[2]);
    assert(h[27] == le32(rate)[3]);
    assert(h[40] == le32(data_len)[0]);
    assert(h[41] == le32(data_len)[1]);
    assert(h[42] == le32(data_len)[2]);
    assert(h[43] == le32(data_len)[3]);
    assert(w.subrange(0, 4) =~= seq![82u8, 73, 70, 70]);
    assert(w.subrange(36, 40) =~= seq![100u8, 97, 116, 97]);
    assert forall|i: int| 0 <= i < n implies read_le16(w, 44 + #[trigger] (2 * i))
        == samples[i] as u16 by {
        assert(read_le16(p, 2 * i) == samples[i] as u16);
        assert(w[44 + 2 * i] == p[2 * i]);
        assert(w[44 + 2 * i + 1] == p[2 * i + 1]);
    }
}

fn push_le16(out: &mut Vec<u8>, v: u16)
    ensures
        final(out)@ == old(out)@ + le16(v),
{
    out.push((v % 256) as u8);
    out.push((v / 256) as u8);
    assert(final(out)@ =~= old(out)@ + le16(v));
}

fn push_le32(out: &mut Vec<u8>, v: u32)
    ensures
        final(out)@ == old(out)@ + le32(v),
{
    out.push((v % 256) as u8);
    out.push(((v / 256) % 256) as u8);
    out.push(((v / 65536) % 256) as u8);
    out.push((v / 16777216) as u8);
    assert(final(out)@ =~= old(out)@ + le32(v));
}

fn push_bytes(out: &mut Vec<u8>, a: u8, b: u8, c: u8, d: u8)
    ensures
        final(out)@ == old(out)@ + seq![a, b, c, d],
{
    out.push(a);
    out.push(b);
    out.push(c);
    out.push(d);
    assert(final(out)@ =~= old(out)@ + seq![a, b, c, d]);
}

impl AudioData {
    /// The audio as a mono 16-bit PCM WAV file, as uploaded for
    /// transcription: the RIFF header, then the samples little-endian.
    pub fn to_wav(&self) -> (r: Vec<u8>)
        requires
            self@.1.len() * 2 + 36 <= u32::MAX,
            self@.0 * 2 <= u32::MAX,
        ensures
            r@ == wav_header(self@.0, (self@.1.len() * 2) as u32) + pcm_bytes(self@.1),
            r@.len() == 44 + 2 * self@.1.len(),
            read_le32(r@, 4) == 36 + 2 * self@.1.len(),
            read_le32(r@, 40) == 2 * self@.1.len(),
            read_le32(r@, 24) == self@.0,
            forall|i: int|
                0 <= i < self@.1.len() ==> read_le16(r@, 44 + #[trigger] (2 * i)) == self@.1[i]
                    as u16,
    {
        let data_len = (self.samples.len() * 2) as u32;
        let mut out: Vec<u8> = Vec::new();
        push_bytes(&mut out, 82, 73, 70, 70);
        push_le32(&mut out, 36 + data_len);
        push_bytes(&mut out, 87, 65, 86, 69);
        push_bytes(&mut out, 102, 109, 116, 32);
        push_le32(&mut out, 16);
        push_le16(&mut out, 1);
        push_le16(&mut out, 1);
        push_le32(&mut out, self.sample_rate);
        push_le32(&mut out, self.sample_rate * 2);
        push_le16(&mut out, 2);
        push_le16(&mut out, 16);
        push_bytes(&mut out, 100, 97, 116, 97);
        push_le32(&mut out, data_len);
        let ghost header = out@;
        assert(header =~= wav_header(self.sample_rate, data_len));
        let mut i: usize = 0;
        while i < self.samples.len()
            invariant
                i <= self.samples.len(),
                out@ == header + pcm_bytes(self.samples@.take(i as int)),
            decreases self.samples.len() - i,
        {
            let ghost before = out@;
            push_le16(&mut out, self.samples[i] as u16);
            assert(self.samples@.take(i + 1).drop_last() =~= self.samples@.take(i as int));
            i = i + 1;
            assert(out@ =~= header + pcm_bytes(self.samples@.take(i as int)));
        }
        assert(self.samples@.take(self.samples@.len() as int) =~= self.samples@);
        proof {
            wav_sizes_match_the_samples(self.sample_rate, self.samples@);
        }
        out
    }

    pub fn new(sample_rate: u32, samples: Vec<i16>) -> (r: Self)
        ensures
            r@ == (sample_rate, samples@),
    {
        AudioData { sample_rate, samples }
    }

    pub fn sample_rate(&self) -> (r: u32)
        ensures
            r == self@.0,
    {
        self.sample_rate
    }

    pub fn samples(&self) -> (r: &[i16])
        ensures
            r@ == self@.1,
    {
        self.samples.as_slice()
    }

    /// How the audio shows in logs: its rate and how many samples it has,
    /// never the samples themselves.
    pub fn describe(&self) -> (r: String)
        ensures
            r@ == "AudioData { sample_rate: "@ + decimal(self@.0 as nat) + ", samples: "@
                + decimal(self@.1.len()) + " }"@,
    {
        let mut r = owned("AudioData { sample_rate: ");
        push_decimal(&mut r, self.sample_rate as u64);
        push_str(&mut r, ", samples: ");
        push_decimal(&mut r, self.samples.len() as u64);
        push_str(&mut r, " }");
        r
    }

    pub fn is_empty(&self) -> (r: bool)
        ensures
            r == (self@.1.len() == 0),
    {
        self.samples.len() == 0
    }

    /// How long the audio lasts: `samples / sample_rate` seconds, to the
    /// nearest nanosecond; zero when the sample rate is zero.
    pub fn duration(&self) -> (d: Duration)
        ensures
            d == duration_of(
                audio_length(self@.1.len(), self@.0 as nat).0,
                audio_length(self@.1.len(), self@.0 as nat).1,
            ),
    {
        if self.sample_rate == 0 {
            return duration_new(0, 0);
        }
        let len = self.samples.len() as u128;
        let rate = self.sample_rate as u128;
        assert(len * 2_000_000_000 + rate <= 0xffff_ffff_ffff_ffff_ffff_ffff_ffff_ffff) by (
        nonlinear_arith)
            requires
                len <= 0xffff_ffff_ffff_ffff,
                rate <= 0xffff_ffff,
        ;
        let total = (len * 2_000_000_000 + rate) / (2 * rate);
        assert(total <= len * 1_000_000_000) by (nonlinear_arith)
            requires
                rate >= 1,
                total == (len * 2_000_000_000 + rate) / (2 * rate),
        ;
        let secs = total / 1_000_000_000;
        let nanos = total % 1_000_000_000;
        assert(secs <= len) by (nonlinear_arith)
            requires
                total <= len * 1_000_000_000,
                secs == total / 1_000_000_000,
        ;
        duration_new(secs as u64, nanos as u32)
    }
}

} // verus!

//! In-memory sound effects: 16-bit mono PCM WAV framing of synthesized
//! samples (the samples themselves are synthesized and quantized by the
//! caller).

use vstd::prelude::*;

verus! {

/// Samples per second.
pub const SAMPLE_RATE: u32 = 44_100;

/// Bytes before the first sample.
pub const WAV_HEADER_LEN: usize = 44;

/// `x` as two little-endian bytes.
pub open spec fn le16(x: u16) -> Seq<u8> {
    seq![(x % 256) as u8, (x / 256) as u8]
}

/// `x` as four little-endian bytes.
pub open spec fn le32(x: u32) -> Seq<u8> {
    seq![(x % 256) as u8, ((x / 256) % 256) as u8, ((x / 65536) % 256) as u8, (x / 16777216) as u8]
}

/// The 44-byte header of a 16-bit mono PCM WAV holding `data_len` bytes of
/// samples at `SAMPLE_RATE`.
pub open spec fn spec_wav_header(data_len: u32) -> Seq<u8> {
    seq![0x52u8, 0x49, 0x46, 0x46]  // "RIFF"
     + le32((36 + data_len) as u32) + seq![0x57u8, 0x41, 0x56, 0x45, 0x66, 0x6d, 0x74, 0x20]  // "WAVEfmt "
     + le32(16)  // fmt chunk size
     + le16(1)  // PCM
     + le16(1)  // mono
     + le32(SAMPLE_RATE) + le32((SAMPLE_RATE * 2) as u32)  // byte rate
     + le16(2)  // block align
     + le16(16)  // bits per sample
     + seq![0x64u8, 0x61, 0x74, 0x61]  // "data"
     + le32(data_len)
}

/// The samples, each as two little-endian bytes (two's complement).
pub open spec fn spec_pcm(samples: Seq<i16>) -> Seq<u8>
    decreases samples.len(),
{
    if samples.len() == 0 {
        Seq::empty()
    } else {
        spec_pcm(samples.drop_last()) + le16(samples.last() as u16)
    }
}

/// A complete WAV file of `samples`.
pub open spec fn spec_wav_bytes(samples: Seq<i16>) -> Seq<u8> {
    spec_wav_header((samples.len() * 2) as u32) + spec_pcm(samples)
}

fn push_le16(out: &mut Vec<u8>, x: u16)
    ensures
        final(out)@ == old(out)@ + le16(x),
{
    out.push((x % 256) as u8);
    out.push((x / 256) as u8);
    assert(final(out)@ =~= old(out)@ + le16(x));
}

fn push_le32(out: &mut Vec<u8>, x: u32)
    ensures
        final(out)@ == old(out)@ + le32(x),
{
    out.push((x % 256) as u8);
    out.push(((x / 256) % 256) as u8);
    out.push(((x / 65536) % 256) as u8);
    out.push((x / 16777216) as u8);
    assert(final(out)@ =~= old(out)@ + le32(x));
}

fn push_bytes4(out: &mut Vec<u8>, a: u8, b: u8, c: u8, d: u8)
    ensures
        final(out)@ == old(out)@ + seq![a, b, c, d],
{
    out.push(a);
    out.push(b);
    out.push(c);
    out.push(d);
    assert(final(out)@ =~= old(out)@ + seq![a, b, c, d]);
}

/// A minimal 16-bit mono PCM WAV file holding `samples`, in memory. The
/// sizes in the header are 32-bit, which bounds the number of samples.
pub fn wav_bytes(samples: &Vec<i16>) -> (r: Vec<u8>)
    requires
        samples@.len() * 2 + 36 <= u32::MAX,
    ensures
        r@ == spec_wav_bytes(samples@),
        r@.len() == WAV_HEADER_LEN + 2 * samples@.len(),
{
    let data_len: u32 = (samples.len() * 2) as u32;
    let mut out: Vec<u8> = Vec::new();
    push_bytes4(&mut out, 0x52, 0x49, 0x46, 0x46);
    push_le32(&mut out, 36 + data_len);
    push_bytes4(&mut out, 0x57, 0x41, 0x56, 0x45);
    push_bytes4(&mut out, 0x66, 0x6d, 0x74, 0x20);
    push_le32(&mut out, 16);
    push_le16(&mut out, 1);
    push_le16(&mut out, 1);
    push_le32(&mut out, SAMPLE_RATE);
    push_le32(&mut out, SAMPLE_RATE * 2);
    push_le16(&mut out, 2);
    push_le16(&mut out, 16);
    push_bytes4(&mut out, 0x64, 0x61, 0x74, 0x61);
    push_le32(&mut out, data_len);
    let ghost header = out@;
    assert(header =~= spec_wav_header(data_len));
    let mut i: usize = 0;
    while i < samples.len()
        invariant
            i <= samples@.len(),
            header.len() == WAV_HEADER_LEN,
            out@ == header + spec_pcm(samples@.take(i as int)),
            spec_pcm(samples@.take(i as int)).len() == 2 * i,
        decreases samples@.len() - i,
    {
        let s = samples[i];
        proof {
            assert(samples@.take(i + 1).drop_last() =~= samples@.take(i as int));
            assert(samples@.take(i + 1).last() == s);
        }
        push_le16(&mut out, s as u16);
        proof {
            assert(out@ =~= header + spec_pcm(samples@.take(i + 1)));
        }
        i = i + 1;
    }
    proof {
        assert(samples@.take(samples@.len() as int) =~= samples@);
    }
    out
}

} // verus!

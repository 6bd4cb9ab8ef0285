//! Canonical PCM WAV containers: 16-bit mono samples behind a 44-byte header.
use vstd::prelude::*;

verus! {

/// The fields of a canonical PCM WAV header.
#[derive(Clone, Copy, Debug, PartialEq, Eq, Structural)]
pub struct WavHeader {
    pub sample_rate: u32,
    pub channels: u16,
    pub bits_per_sample: u16,
    pub data_len: u32,
}

/// Size of the canonical header that precedes the sample data.
pub const WAV_HEADER_LEN: usize = 44;

/// Little-endian bytes of a 16-bit value.
pub open spec fn le16(x: u16) -> Seq<u8> {
    seq![(x & 0xff) as u8, ((x >> 8u16) & 0xff) as u8]
}

/// Little-endian bytes of a 32-bit value.
pub open spec fn le32(x: u32) -> Seq<u8> {
    seq![
        (x & 0xff) as u8,
        ((x >> 8u32) & 0xff) as u8,
        ((x >> 16u32) & 0xff) as u8,
        ((x >> 24u32) & 0xff) as u8,
    ]
}

/// The 16-bit little-endian value stored at `i`.
pub open spec fn read_u16(b: Seq<u8>, i: int) -> u16 {
    (b[i] as u16) | ((b[i + 1] as u16) << 8u16)
}

/// The 32-bit little-endian value stored at `i`.
pub open spec fn read_u32(b: Seq<u8>, i: int) -> u32 {
    (b[i] as u32) | ((b[i + 1] as u32) << 8u32) | ((b[i + 2] as u32) << 16u32) | ((b[i + 3]
        as u32) << 24u32)
}

/// Whether the four bytes at `i` are the chunk tag `t`.
pub open spec fn has_tag(b: Seq<u8>, i: int, t: Seq<u8>) -> bool {
    b[i] == t[0] && b[i + 1] == t[1] && b[i + 2] == t[2] && b[i + 3] == t[3]
}

pub open spec fn tag_riff() -> Seq<u8> {
    seq![0x52u8, 0x49u8, 0x46u8, 0x46u8]
}

pub open spec fn tag_wave() -> Seq<u8> {
    seq![0x57u8, 0x41u8, 0x56u8, 0x45u8]
}

pub open spec fn tag_fmt() -> Seq<u8> {
    seq![0x66u8, 0x6du8, 0x74u8, 0x20u8]
}

pub open spec fn tag_data() -> Seq<u8> {
    seq![0x64u8, 0x61u8, 0x74u8, 0x61u8]
}

/// The 44-byte header of a mono 16-bit PCM container holding `data_len`
/// bytes of samples at `sample_rate`.
pub open spec fn wav_header(data_len: u32, sample_rate: u32) -> Seq<u8>
    recommends
        data_len + 36 <= u32::MAX,
        sample_rate * 2 <= u32::MAX,
{
    tag_riff() + le32((data_len + 36) as u32) + tag_wave() + tag_fmt() + le32(16) + le16(1)
        + le16(1) + le32(sample_rate) + le32((sample_rate * 2) as u32) + le16(2) + le16(16)
        + tag_data() + le32(data_len)
}

/// The samples in order, each as two little-endian bytes.
pub open spec fn pcm_bytes(samples: Seq<i16>) -> Seq<u8>
    decreases samples.len(),
{
    if samples.len() == 0 {
        Seq::empty()
    } else {
        pcm_bytes(samples.drop_last()) + le16(samples.last() as u16)
    }
}

/// The complete container for `samples` at `sample_rate`.
pub open spec fn wav_bytes(samples: Seq<i16>, sample_rate: u32) -> Seq<u8> {
    wav_header((2 * samples.len()) as u32, sample_rate) + pcm_bytes(samples)
}

/// Whether a buffer of `n` samples at `sample_rate` fits the header's 32-bit fields.
pub open spec fn wav_fits(n: int, sample_rate: u32) -> bool {
    2 * n + 36 <= u32::MAX && sample_rate * 2 <= u32::MAX
}

/// What a canonical header at the start of `b` declares, if `b` starts with one.
pub open spec fn header_of(b: Seq<u8>) -> Option<WavHeader> {
    if b.len() >= 44 && has_tag(b, 0, tag_riff()) && has_tag(b, 8, tag_wave()) && has_tag(
        b,
        12,
        tag_fmt(),
    ) && read_u32(b, 16) == 16 && read_u16(b, 20) == 1 && has_tag(b, 36, tag_data()) {
        Some(
            WavHeader {
                channels: read_u16(b, 22),
                sample_rate: read_u32(b, 24),
                bits_per_sample: read_u16(b, 34),
                data_len: read_u32(b, 40),
            },
        )
    } else {
        None
    }
}

/// Decoding the header of an encoded buffer gives back the sample rate, one
/// channel, 16 bits per sample and a data length of two bytes per sample;
/// the RIFF size field is the buffer length less eight.
pub proof fn lemma_header_round_trip(samples: Seq<i16>, sample_rate: u32)
    requires
        wav_fits(samples.len() as int, sample_rate),
    ensures
        header_of(wav_bytes(samples, sample_rate)) == Some(
            WavHeader {
                sample_rate,
                channels: 1,
                bits_per_sample: 16,
                data_len: (2 * samples.len()) as u32,
            },
        ),
        read_u32(wav_bytes(samples, sample_rate), 4) == wav_bytes(samples, sample_rate).len()
            - 8,
{
    let data_len = (2 * samples.len()) as u32;
    let h = wav_header(data_len, sample_rate);
    let b = wav_bytes(samples, sample_rate);
    lemma_pcm_len(samples);
    lemma_read_le16(1);
    lemma_read_le16(16);
    lemma_read_le32(16);
    lemma_read_le32(sample_rate);
    lemma_read_le32(data_len);
    lemma_read_le32((data_len + 36) as u32);
    assert(h.len() == 44);
    assert forall|i: int| 0 <= i < 44 implies b[i] == h[i] by {}
    assert(has_tag(b, 0, tag_riff()));
    assert(has_tag(b, 8, tag_wave()));
    assert(has_tag(b, 12, tag_fmt()));
    assert(has_tag(b, 36, tag_data()));
    assert(h.subrange(4, 8) =~= le32((data_len + 36) as u32));
    assert(h.subrange(16, 20) =~= le32(16));
    assert(h.subrange(20, 22) =~= le16(1));
    assert(h.subrange(22, 24) =~= le16(1));
    assert(h.subrange(24, 28) =~= le32(sample_rate));
    assert(h.subrange(34, 36) =~= le16(16));
    assert(h.subrange(40, 44) =~= le32(data_len));
}

/// An empty buffer encodes to the bare 44-byte header, whose `data` chunk is
/// empty and whose RIFF size field counts the 36 header bytes after it.
pub proof fn lemma_empty_wav(sample_rate: u32)
    requires
        sample_rate * 2 <= u32::MAX,
    ensures
        wav_bytes(Seq::empty(), sample_rate).len() == WAV_HEADER_LEN,
        read_u32(wav_bytes(Seq::empty(), sample_rate), 40) == 0,
        read_u32(wav_bytes(Seq::empty(), sample_rate), 4) == 36,
        header_of(wav_bytes(Seq::empty(), sample_rate)) matches Some(h) && h.data_len == 0,
{
    let b = wav_bytes(Seq::empty(), sample_rate);
    lemma_header_round_trip(Seq::empty(), sample_rate);
    lemma_pcm_len(Seq::<i16>::empty());
    assert(header_of(b) is Some);
    assert(read_u32(b, 40) == 0);
}

proof fn lemma_read_le16(x: u16)
    ensures
        read_u16(le16(x), 0) == x,
{
    let b = le16(x);
    assert(b[0] == (x & 0xff) as u8 && b[1] == ((x >> 8u16) & 0xff) as u8);
    assert((((x & 0xff) as u8) as u16) | (((((x >> 8u16) & 0xff) as u8) as u16) << 8u16) == x)
        by (bit_vector);
}

proof fn lemma_read_le32(x: u32)
    ensures
        read_u32(le32(x), 0) == x,
{
    let b = le32(x);
    assert(b[0] == (x & 0xff) as u8 && b[1] == ((x >> 8u32) & 0xff) as u8 && b[2] == ((x
        >> 16u32) & 0xff) as u8 && b[3] == ((x >> 24u32) & 0xff) as u8);
    assert((((x & 0xff) as u8) as u32) | (((((x >> 8u32) & 0xff) as u8) as u32) << 8u32) | ((((
    (x >> 16u32) & 0xff) as u8) as u32) << 16u32) | (((((x >> 24u32) & 0xff) as u8) as u32)
        << 24u32) == x) by (bit_vector);
}

proof fn lemma_pcm_len(samples: Seq<i16>)
    ensures
        pcm_bytes(samples).len() == 2 * samples.len(),
    decreases samples.len(),
{
    if samples.len() > 0 {
        lemma_pcm_len(samples.drop_last());
    }
}

fn push_u16_le(buf: &mut Vec<u8>, x: u16)
    ensures
        final(buf)@ == old(buf)@ + le16(x),
{
    buf.push((x & 0xff) as u8);
    buf.push(((x >> 8u16) & 0xff) as u8);
    assert(final(buf)@ =~= old(buf)@ + le16(x));
}

fn push_u32_le(buf: &mut Vec<u8>, x: u32)
    ensures
        final(buf)@ == old(buf)@ + le32(x),
{
    buf.push((x & 0xff) as u8);
    buf.push(((x >> 8u32) & 0xff) as u8);
    buf.push(((x >> 16u32) & 0xff) as u8);
    buf.push(((x >> 24u32) & 0xff) as u8);
    assert(final(buf)@ =~= old(buf)@ + le32(x));
}

fn push_tag(buf: &mut Vec<u8>, t0: u8, t1: u8, t2: u8, t3: u8)
    ensures
        final(buf)@ == old(buf)@ + seq![t0, t1, t2, t3],
{
    buf.push(t0);
    buf.push(t1);
    buf.push(t2);
    buf.push(t3);
    assert(final(buf)@ =~= old(buf)@ + seq![t0, t1, t2, t3]);
}

/// Builds a mono 16-bit PCM WAV container around `samples`, with every size
/// field computed from the sample count.
pub fn encode_wav(samples: &[i16], sample_rate: u32) -> (r: Vec<u8>)
    requires
        wav_fits(samples@.len() as int, sample_rate),
    ensures
        r@ == wav_bytes(samples@, sample_rate),
        r@.len() == WAV_HEADER_LEN + 2 * samples@.len(),
{
    let data_size: u32 = (samples.len() * 2) as u32;
    let mut buffer: Vec<u8> = Vec::new();
    push_tag(&mut buffer, 0x52u8, 0x49u8, 0x46u8, 0x46u8);
    push_u32_le(&mut buffer, data_size + 36);
    push_tag(&mut buffer, 0x57u8, 0x41u8, 0x56u8, 0x45u8);
    push_tag(&mut buffer, 0x66u8, 0x6du8, 0x74u8, 0x20u8);
    push_u32_le(&mut buffer, 16);
    push_u16_le(&mut buffer, 1);
    push_u16_le(&mut buffer, 1);
    push_u32_le(&mut buffer, sample_rate);
    push_u32_le(&mut buffer, sample_rate * 2);
    push_u16_le(&mut buffer, 2);
    push_u16_le(&mut buffer, 16);
    push_tag(&mut buffer, 0x64u8, 0x61u8, 0x74u8, 0x61u8);
    push_u32_le(&mut buffer, data_size);
    let ghost header = buffer@;
    assert(header =~= wav_header(data_size, sample_rate));
    let mut i: usize = 0;
    while i < samples.len()
        invariant
            i <= samples@.len(),
            buffer@ == header + pcm_bytes(samples@.take(i as int)),
        decreases samples@.len() - i,
    {
        proof {
            assert(samples@.take(i + 1).drop_last() =~= samples@.take(i as int));
        }
        push_u16_le(&mut buffer, samples[i] as u16);
        i = i + 1;
        assert(buffer@ =~= header + pcm_bytes(samples@.take(i as int)));
    }
    assert(samples@.take(i as int) =~= samples@);
    proof {
        lemma_pcm_len(samples@);
    }
    buffer
}

fn read_u16_at(b: &[u8], i: usize) -> (r: u16)
    requires
        i + 2 <= b@.len(),
    ensures
        r == read_u16(b@, i as int),
{
    (b[i] as u16) | ((b[i + 1] as u16) << 8u16)
}

fn read_u32_at(b: &[u8], i: usize) -> (r: u32)
    requires
        i + 4 <= b@.len(),
    ensures
        r == read_u32(b@, i as int),
{
    (b[i] as u32) | ((b[i + 1] as u32) << 8u32) | ((b[i + 2] as u32) << 16u32) | ((b[i + 3]
        as u32) << 24u32)
}

fn tag_at(b: &[u8], i: usize, t0: u8, t1: u8, t2: u8, t3: u8) -> (r: bool)
    requires
        i + 4 <= b@.len(),
    ensures
        r == has_tag(b@, i as int, seq![t0, t1, t2, t3]),
{
    b[i] == t0 && b[i + 1] == t1 && b[i + 2] == t2 && b[i + 3] == t3
}

/// Reads the canonical 44-byte header at the start of `bytes`: `None` unless
/// it carries the RIFF, WAVE, `fmt ` and `data` tags and a 16-byte PCM format
/// chunk.
pub fn decode_wav_header(bytes: &[u8]) -> (r: Option<WavHeader>)
    ensures
        r == header_of(bytes@),
{
    if bytes.len() < WAV_HEADER_LEN {
        return None;
    }
    if tag_at(bytes, 0, 0x52u8, 0x49u8, 0x46u8, 0x46u8) && tag_at(bytes, 8, 0x57u8, 0x41u8, 0x56u8, 0x45u8)
        && tag_at(bytes, 12, 0x66u8, 0x6du8, 0x74u8, 0x20u8) && read_u32_at(bytes, 16) == 16
        && read_u16_at(bytes, 20) == 1 && tag_at(bytes, 36, 0x64u8, 0x61u8, 0x74u8, 0x61u8) {
        Some(
            WavHeader {
                channels: read_u16_at(bytes, 22),
                sample_rate: read_u32_at(bytes, 24),
                bits_per_sample: read_u16_at(bytes, 34),
                data_len: read_u32_at(bytes, 40),
            },
        )
    } else {
        None
    }
}

} // verus!

//! The wire format of an audio chunk: each 16-bit signed sample becomes two
//! bytes, low byte first, in two's complement.
use vstd::prelude::*;

verus! {

/// The unsigned 16-bit pattern of a sample (two's complement).
pub open spec fn sample_bits(x: i16) -> int {
    if x < 0 {
        x + 65536
    } else {
        x as int
    }
}

/// The two bytes of one sample, low byte first.
pub open spec fn sample_le(x: i16) -> Seq<u8> {
    seq![(sample_bits(x) % 256) as u8, (sample_bits(x) / 256) as u8]
}

/// The bytes of a whole chunk: the samples' bytes one after the other.
pub open spec fn samples_le(s: Seq<i16>) -> Seq<u8>
    decreases s.len(),
{
    if s.len() == 0 {
        seq![]
    } else {
        samples_le(s.drop_last()) + sample_le(s.last())
    }
}

/// The sample that two bytes, low byte first, stand for.
pub open spec fn sample_from_le(lo: u8, hi: u8) -> i16 {
    let v = lo as int + 256 * hi as int;
    if v >= 32768 {
        (v - 65536) as i16
    } else {
        v as i16
    }
}

/// The samples that a byte sequence of even length stands for.
pub open spec fn samples_from_le(b: Seq<u8>) -> Seq<i16>
    decreases b.len(),
{
    if b.len() < 2 {
        seq![]
    } else {
        samples_from_le(b.subrange(0, b.len() - 2)).push(
            sample_from_le(b[b.len() - 2], b[b.len() - 1]),
        )
    }
}

proof fn lemma_samples_le_len(s: Seq<i16>)
    ensures
        samples_le(s).len() == 2 * s.len(),
    decreases s.len(),
{
    if s.len() > 0 {
        lemma_samples_le_len(s.drop_last());
    }
}

proof fn lemma_sample_round_trip(x: i16)
    ensures
        sample_from_le(sample_le(x)[0], sample_le(x)[1]) == x,
{
}

/// Encoding a chunk and decoding the bytes gives the chunk back.
pub proof fn lemma_round_trip(s: Seq<i16>)
    ensures
        samples_from_le(samples_le(s)) == s,
    decreases s.len(),
{
    if s.len() > 0 {
        let b = samples_le(s);
        let p = samples_le(s.drop_last());
        lemma_samples_le_len(s.drop_last());
        lemma_round_trip(s.drop_last());
        lemma_sample_round_trip(s.last());
        assert(b.subrange(0, b.len() - 2) == p);
        assert(s.drop_last().push(s.last()) == s);
    }
}

/// The bytes of one sample, low byte first.
pub fn sample_to_le(x: i16) -> (r: [u8; 2])
    ensures
        r@ == sample_le(x),
{
    let v: u16 = if x < 0 {
        (x as i32 + 65536) as u16
    } else {
        x as u16
    };
    let r = [(v % 256) as u8, (v / 256) as u8];
    assert(r@ =~= sample_le(x));
    r
}

/// Serialises a chunk of samples into the bytes of one binary frame.
pub fn encode_samples(samples: &[i16]) -> (r: Vec<u8>)
    requires
        2 * samples@.len() <= usize::MAX,
    ensures
        r@ == samples_le(samples@),
        r@.len() == 2 * samples@.len(),
        samples_from_le(r@) == samples@,
{
    let mut out: Vec<u8> = Vec::with_capacity(samples.len() * 2);
    let mut i: usize = 0;
    while i < samples.len()
        invariant
            i <= samples@.len(),
            out@ == samples_le(samples@.subrange(0, i as int)),
        decreases samples@.len() - i,
    {
        let b = sample_to_le(samples[i]);
        out.push(b[0]);
        out.push(b[1]);
        proof {
            let s = samples@.subrange(0, i + 1);
            assert(s.drop_last() == samples@.subrange(0, i as int));
            assert(s.last() == samples@[i as int]);
        }
        assert(out@ =~= samples_le(samples@.subrange(0, i + 1)));
        i = i + 1;
    }
    assert(samples@.subrange(0, samples@.len() as int) == samples@);
    proof {
        lemma_samples_le_len(samples@);
        lemma_round_trip(samples@);
    }
    out
}

/// Reads a frame's bytes back as samples; `None` when the length is odd.
pub fn decode_samples(bytes: &[u8]) -> (r: Option<Vec<i16>>)
    ensures
        bytes@.len() % 2 == 1 <==> r is None,
        r matches Some(v) ==> v@ == samples_from_le(bytes@),
{
    if bytes.len() % 2 == 1 {
        return None;
    }
    let mut out: Vec<i16> = Vec::with_capacity(bytes.len() / 2);
    let mut i: usize = 0;
    while i < bytes.len()
        invariant
            i <= bytes@.len(),
            i % 2 == 0,
            bytes@.len() % 2 == 0,
            out@ == samples_from_le(bytes@.subrange(0, i as int)),
        decreases bytes@.len() - i,
    {
        let lo = bytes[i];
        let hi = bytes[i + 1];
        let v: u16 = lo as u16 + 256 * (hi as u16);
        let x: i16 = if v >= 32768 {
            (v as i32 - 65536) as i16
        } else {
            v as i16
        };
        out.push(x);
        proof {
            let b = bytes@.subrange(0, i + 2);
            assert(b.subrange(0, b.len() - 2) == bytes@.subrange(0, i as int));
        }
        i = i + 2;
    }
    assert(bytes@.subrange(0, bytes@.len() as int) == bytes@);
    Some(out)
}

} // verus!

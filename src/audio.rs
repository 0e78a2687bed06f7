//! Byte layout of synthesised audio: each 32-bit float sample, given by its
//! bit pattern, is written as four little-endian bytes, with no header and
//! no padding.
use vstd::prelude::*;

verus! {

/// The four little-endian bytes of one 32-bit word.
pub open spec fn le_bytes(w: u32) -> Seq<u8> {
    seq![
        (w % 256) as u8,
        ((w / 256) % 256) as u8,
        ((w / 65536) % 256) as u8,
        (w / 16777216) as u8,
    ]
}

/// The byte layout of a sample sequence: the samples' little-endian
/// encodings, one after the other, in order.
pub open spec fn encoded(samples: Seq<u32>) -> Seq<u8>
    decreases samples.len(),
{
    if samples.len() == 0 {
        seq![]
    } else {
        encoded(samples.drop_last()) + le_bytes(samples.last())
    }
}

/// The encoding is four bytes per sample, and sample `i` stands at bytes
/// `4 * i .. 4 * i + 4`.
pub proof fn lemma_encoded_layout(samples: Seq<u32>)
    ensures
        encoded(samples).len() == 4 * samples.len(),
        forall|i: int, j: int|
            0 <= i < samples.len() && 0 <= j < 4 ==> #[trigger] encoded(samples)[4 * i + j]
                == #[trigger] le_bytes(samples[i])[j],
    decreases samples.len(),
{
    if samples.len() > 0 {
        let front = samples.drop_last();
        lemma_encoded_layout(front);
        assert forall|i: int, j: int|
            0 <= i < samples.len() && 0 <= j < 4 implies #[trigger] encoded(samples)[4 * i + j]
                == #[trigger] le_bytes(samples[i])[j] by {
            if i < front.len() {
                assert(front[i] == samples[i]);
            }
        }
    }
}

/// Encodes the sample bit patterns as sequential little-endian 32-bit words.
pub fn encode_samples(samples: &[u32]) -> (r: Vec<u8>)
    ensures
        r@ == encoded(samples@),
{
    let mut out: Vec<u8> = Vec::new();
    let mut i: usize = 0;
    while i < samples.len()
        invariant
            i <= samples@.len(),
            out@ == encoded(samples@.subrange(0, i as int)),
        decreases samples@.len() - i,
    {
        let w: u32 = samples[i];
        out.push((w % 256) as u8);
        out.push(((w / 256) % 256) as u8);
        out.push(((w / 65536) % 256) as u8);
        out.push((w / 16777216) as u8);
        proof {
            let next = samples@.subrange(0, i + 1);
            assert(next.drop_last() =~= samples@.subrange(0, i as int));
            assert(next.last() == w);
            assert(out@ =~= encoded(next));
        }
        i = i + 1;
    }
    proof {
        assert(samples@.subrange(0, samples@.len() as int) =~= samples@);
    }
    out
}

} // verus!

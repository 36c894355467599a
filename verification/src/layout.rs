//! Little-endian byte layout of 32-bit words, as the GPU buffers expect
//! their contents: uniform records, vertex attributes and index lists are
//! all sequences of 32-bit words packed back to back.

use vstd::prelude::*;

verus! {

/// The four bytes of a 32-bit word, least-significant first.
pub open spec fn le_bytes(w: u32) -> Seq<u8> {
    seq![
        (w & 0xff) as u8,
        ((w >> 8) & 0xff) as u8,
        ((w >> 16) & 0xff) as u8,
        ((w >> 24) & 0xff) as u8,
    ]
}

/// A word sequence laid out back to back, each word little-endian.
pub open spec fn bytes_of_words(ws: Seq<u32>) -> Seq<u8>
    decreases ws.len(),
{
    if ws.len() == 0 {
        Seq::<u8>::empty()
    } else {
        bytes_of_words(ws.drop_last()) + le_bytes(ws.last())
    }
}

/// Each word contributes exactly four bytes.
pub proof fn lemma_bytes_of_words_len(ws: Seq<u32>)
    ensures
        bytes_of_words(ws).len() == 4 * ws.len(),
    decreases ws.len(),
{
    if ws.len() > 0 {
        lemma_bytes_of_words_len(ws.drop_last());
    }
}

/// The bytes of `ws.push(w)` are the bytes of `ws` followed by the bytes
/// of `w`.
pub proof fn lemma_bytes_of_words_push(ws: Seq<u32>, w: u32)
    ensures
        bytes_of_words(ws.push(w)) == bytes_of_words(ws) + le_bytes(w),
{
    assert(ws.push(w).drop_last() =~= ws);
}

/// Where each word's bytes land: byte `k` of word `i` sits at offset
/// `4 * i + k` of the packed layout.
pub proof fn lemma_bytes_of_words_index(ws: Seq<u32>, i: int, k: int)
    requires
        0 <= i < ws.len(),
        0 <= k < 4,
    ensures
        bytes_of_words(ws)[4 * i + k] == le_bytes(ws[i])[k],
    decreases ws.len(),
{
    lemma_bytes_of_words_len(ws.drop_last());
    if i == ws.len() - 1 {
        assert(4 * i + k - 4 * (ws.len() - 1) == k);
    } else {
        lemma_bytes_of_words_index(ws.drop_last(), i, k);
        assert(ws.drop_last()[i] == ws[i]);
    }
}

/// Appends the four little-endian bytes of `w` to `buf`.
pub fn push_word_le(buf: &mut Vec<u8>, w: u32)
    ensures
        final(buf)@ == old(buf)@ + le_bytes(w),
{
    proof {
        assert((w & 0xff) < 256 && ((w >> 8) & 0xff) < 256 && ((w >> 16) & 0xff) < 256 && ((w
            >> 24) & 0xff) < 256) by (bit_vector);
    }
    buf.push((w & 0xff) as u8);
    buf.push(((w >> 8) & 0xff) as u8);
    buf.push(((w >> 16) & 0xff) as u8);
    buf.push(((w >> 24) & 0xff) as u8);
    proof {
        assert(buf@ =~= old(buf)@ + le_bytes(w));
    }
}

/// Packs a word list into its little-endian byte layout.
pub fn words_to_bytes(ws: &Vec<u32>) -> (b: Vec<u8>)
    ensures
        b@ == bytes_of_words(ws@),
        b@.len() == 4 * ws@.len(),
{
    let mut b: Vec<u8> = Vec::new();
    let mut i: usize = 0;
    while i < ws.len()
        invariant
            i <= ws@.len(),
            b@ == bytes_of_words(ws@.take(i as int)),
        decreases ws@.len() - i,
    {
        push_word_le(&mut b, ws[i]);
        proof {
            assert(ws@.take(i as int + 1) =~= ws@.take(i as int).push(ws@[i as int]));
            lemma_bytes_of_words_push(ws@.take(i as int), ws@[i as int]);
        }
        i = i + 1;
    }
    proof {
        assert(ws@.take(ws@.len() as int) =~= ws@);
        lemma_bytes_of_words_len(ws@);
    }
    b
}

} // verus!

use vstd::prelude::*;
use rand_chacha::rand_core::{RngCore, SeedableRng};
use rand_chacha::ChaCha8Rng;

verus! {

/// The 32-bit word at position `pos` of the ChaCha8 keystream whose key is
/// expanded from `seed`.
pub uninterp spec fn chacha8_word(seed: u64, pos: u64) -> u32;

/// Relies on rand_chacha's `ChaCha8Rng`: `seed_from_u64` builds the generator
/// from `seed`, `set_word_pos` moves it to word `pos` of its stream and
/// `next_u32` reads that word. The word depends on the seed and the position
/// alone.
#[verifier::external_body]
fn keystream_word(seed: u64, pos: u64) -> (r: u32)
    ensures
        r == chacha8_word(seed, pos),
{
    let mut rng = ChaCha8Rng::seed_from_u64(seed);
    rng.set_word_pos(pos as u128);
    rng.next_u32()
}

/// Position `k` words after `cursor`, wrapping around at 2^64.
pub open spec fn stream_pos(cursor: u64, k: int) -> u64 {
    ((cursor + k) % 0x1_0000_0000_0000_0000) as u64
}

/// The `n` words of the stream of `seed` from position `cursor` on.
pub open spec fn stream_words(seed: u64, cursor: u64, n: nat) -> Seq<u32> {
    Seq::new(n, |k: int| chacha8_word(seed, stream_pos(cursor, k)))
}

/// A seeded source of uniform 32-bit draws: the ChaCha8 keystream of `seed`,
/// read on from word `cursor`. Equal seeds give equal draws on every run.
pub struct DrawStream {
    pub seed: u64,
    pub cursor: u64,
}

impl DrawStream {
    /// The stream of `seed`, from its first word.
    pub fn new(seed: u64) -> (r: DrawStream)
        ensures
            r.seed == seed,
            r.cursor == 0,
    {
        DrawStream { seed, cursor: 0 }
    }

    /// The next `n` draws; the stream moves on by `n` words.
    pub fn take(&mut self, n: usize) -> (r: Vec<u32>)
        ensures
            r@ == stream_words(old(self).seed, old(self).cursor, n as nat),
            final(self).seed == old(self).seed,
            final(self).cursor == stream_pos(old(self).cursor, n as int),
    {
        let mut out: Vec<u32> = Vec::new();
        let mut pos: u64 = self.cursor;
        let mut k: usize = 0;
        while k < n
            invariant
                k <= n,
                pos == stream_pos(self.cursor, k as int),
                out@ =~= stream_words(self.seed, self.cursor, k as nat),
            decreases n - k,
        {
            out.push(keystream_word(self.seed, pos));
            pos = pos.wrapping_add(1);
            k = k + 1;
        }
        self.cursor = pos;
        out
    }
}

} // verus!

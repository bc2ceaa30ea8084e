//! Little-endian byte encoding of 32-bit words.
//!
//! Everything that is uploaded to the GPU (vertex attributes, indices and
//! matrices) is a run of 32-bit words. A single-precision number is carried
//! as the word that holds its IEEE-754 bits, so the encoding below is the
//! whole binary contract of an upload.

use vstd::prelude::*;

verus! {

/// The word that holds `0.0`.
pub const ZERO: u32 = 0;

/// The word that holds `0.5`.
pub const HALF: u32 = 0x3F00_0000;

/// The word that holds `1.0`.
pub const ONE: u32 = 0x3F80_0000;

/// The word that holds `-0.5`.
pub const NEG_HALF: u32 = 0xBF00_0000;

/// The word that holds `-1.0`.
pub const NEG_ONE: u32 = 0xBF80_0000;

/// The bit that holds the sign of a single-precision number.
pub const SIGN_BIT: u32 = 0x8000_0000;

/// The four bytes of a word, least significant first.
pub open spec fn le_bytes(word: u32) -> Seq<u8> {
    seq![
        (word % 256) as u8,
        (word / 256 % 256) as u8,
        (word / 65536 % 256) as u8,
        (word / 16777216) as u8,
    ]
}

/// The bytes of a run of words: byte `k` is byte `k % 4` of word `k / 4`,
/// so each word's four bytes stand together, in the order of the words.
pub open spec fn words_bytes(words: Seq<u32>) -> Seq<u8> {
    Seq::new(4 * words.len(), |k: int| le_bytes(words[k / 4])[k % 4])
}

/// Encoding a run that was extended by one word appends that word's bytes.
pub proof fn lemma_words_bytes_push(words: Seq<u32>, word: u32)
    ensures
        words_bytes(words.push(word)) == words_bytes(words) + le_bytes(word),
{
    let n = words.len() as int;
    assert forall|k: int| 0 <= k < 4 * (n + 1) implies words_bytes(words.push(word))[k] == (
    words_bytes(words) + le_bytes(word))[k] by {
        if k >= 4 * n {
            assert(k / 4 == n && k % 4 == k - 4 * n);
        }
    }
    assert(words_bytes(words.push(word)) =~= words_bytes(words) + le_bytes(word));
}

/// Encoding two runs one after the other is encoding their concatenation.
pub proof fn lemma_words_bytes_concat(a: Seq<u32>, b: Seq<u32>)
    ensures
        words_bytes(a + b) == words_bytes(a) + words_bytes(b),
{
    let n = a.len() as int;
    assert forall|k: int| 0 <= k < 4 * (a + b).len() implies words_bytes(a + b)[k] == (
    words_bytes(a) + words_bytes(b))[k] by {
        if k >= 4 * n {
            assert((k - 4 * n) / 4 == k / 4 - n && (k - 4 * n) % 4 == k % 4);
        }
    }
    assert(words_bytes(a + b) =~= words_bytes(a) + words_bytes(b));
}

/// Appends the four bytes of `word` to `out`.
pub fn push_word(out: &mut Vec<u8>, word: u32)
    ensures
        final(out)@ == old(out)@ + le_bytes(word),
{
    out.push((word % 256) as u8);
    out.push((word / 256 % 256) as u8);
    out.push((word / 65536 % 256) as u8);
    out.push((word / 16777216) as u8);
    assert(out@ =~= old(out)@ + le_bytes(word));
}

/// Appends the bytes of every word of `words` to `out`, in order.
pub fn push_words(out: &mut Vec<u8>, words: &[u32])
    ensures
        final(out)@ == old(out)@ + words_bytes(words@),
{
    let mut i: usize = 0;
    assert(words@.take(0) =~= Seq::<u32>::empty());
    assert(out@ =~= old(out)@ + words_bytes(words@.take(0)));
    while i < words.len()
        invariant
            i <= words@.len(),
            out@ == old(out)@ + words_bytes(words@.take(i as int)),
        decreases words@.len() - i,
    {
        push_word(out, words[i]);
        proof {
            lemma_words_bytes_push(words@.take(i as int), words@[i as int]);
            assert(words@.take(i as int).push(words@[i as int]) =~= words@.take(i + 1));
            assert((old(out)@ + words_bytes(words@.take(i as int))) + le_bytes(words@[i as int])
                =~= old(out)@ + words_bytes(words@.take(i + 1)));
        }
        i += 1;
    }
    assert(words@.take(words@.len() as int) =~= words@);
}

/// Encodes a run of words as bytes.
pub fn words_to_bytes(words: &[u32]) -> (bytes: Vec<u8>)
    ensures
        bytes@ == words_bytes(words@),
        bytes@.len() == 4 * words@.len(),
{
    let mut bytes: Vec<u8> = Vec::new();
    push_words(&mut bytes, words);
    assert(Seq::<u8>::empty() + words_bytes(words@) =~= words_bytes(words@));
    bytes
}

/// The word with the sign of the number flipped: the negated number.
pub open spec fn negated(word: u32) -> u32 {
    if word >= SIGN_BIT {
        (word - SIGN_BIT) as u32
    } else {
        (word + SIGN_BIT) as u32
    }
}

/// The word with the sign cleared: the absolute value of the number.
pub open spec fn magnitude(word: u32) -> u32 {
    if word >= SIGN_BIT {
        (word - SIGN_BIT) as u32
    } else {
        word
    }
}

/// Negates the number that `word` holds.
pub fn negate(word: u32) -> (r: u32)
    ensures
        r == negated(word),
{
    if word >= SIGN_BIT {
        word - SIGN_BIT
    } else {
        word + SIGN_BIT
    }
}

/// Takes the absolute value of the number that `word` holds.
pub fn abs(word: u32) -> (r: u32)
    ensures
        r == magnitude(word),
{
    if word >= SIGN_BIT {
        word - SIGN_BIT
    } else {
        word
    }
}

} // verus!

//! 4×4 matrices as they are handed to the vertex stage.

use vstd::prelude::*;
use crate::wire::{lemma_words_bytes_concat, push_words, words_bytes, ONE, ZERO};

verus! {

/// A 4×4 matrix of single-precision numbers, carried as sixteen words in
/// column-major order: the entry in row `r` of column `c` is word
/// `4 * c + r`.
#[derive(Clone, Copy, Debug, PartialEq, Eq)]
pub struct Mat4 {
    pub cols: [u32; 16],
}

/// The number of bytes of one matrix in a uniform buffer.
pub const MATRIX_SIZE: usize = 64;

/// The words of the identity matrix: `1.0` on the diagonal, `0.0` elsewhere.
pub open spec fn identity_words() -> Seq<u32> {
    Seq::new(16, |k: int| if k % 5 == 0 { ONE } else { ZERO })
}

impl Mat4 {
    /// The identity matrix.
    pub fn identity() -> (m: Mat4)
        ensures
            m.cols@ == identity_words(),
    {
        let m = Mat4 {
            cols: [
                ONE, ZERO, ZERO, ZERO,
                ZERO, ONE, ZERO, ZERO,
                ZERO, ZERO, ONE, ZERO,
                ZERO, ZERO, ZERO, ONE,
            ],
        };
        assert(m.cols@ =~= identity_words());
        m
    }

    /// The matrix with the given words, column after column.
    pub fn from_cols_array(cols: [u32; 16]) -> (m: Mat4)
        ensures
            m.cols == cols,
    {
        Mat4 { cols }
    }

    /// The words of the matrix, column after column.
    pub fn to_cols_array(&self) -> (cols: [u32; 16])
        ensures
            cols == self.cols,
    {
        self.cols
    }
}

/// The block of uniform data that one object is drawn with: its combined
/// model-view-projection matrix.
#[derive(Clone, Copy, Debug, PartialEq, Eq)]
pub struct Uniforms {
    pub mvp: [u32; 16],
}

/// The words of a run of uniform blocks: word `k` is word `k % 16` of the
/// matrix of block `k / 16`.
pub open spec fn uniforms_words(uniforms: Seq<Uniforms>) -> Seq<u32> {
    Seq::new(16 * uniforms.len(), |k: int| uniforms[k / 16].mvp@[k % 16])
}

/// The content of the uniform buffer that holds `uniforms`.
pub open spec fn uniforms_bytes(uniforms: Seq<Uniforms>) -> Seq<u8> {
    words_bytes(uniforms_words(uniforms))
}

/// The words of a run that was extended by one block are the words of the
/// run and then those of the block.
pub proof fn lemma_uniforms_words_push(uniforms: Seq<Uniforms>, block: Uniforms)
    ensures
        uniforms_words(uniforms.push(block)) == uniforms_words(uniforms) + block.mvp@,
{
    let n = uniforms.len() as int;
    assert forall|k: int| 0 <= k < 16 * (n + 1) implies uniforms_words(uniforms.push(block))[k]
        == (uniforms_words(uniforms) + block.mvp@)[k] by {
        if k >= 16 * n {
            assert(k / 16 == n && k % 16 == k - 16 * n);
        }
    }
    assert(uniforms_words(uniforms.push(block)) =~= uniforms_words(uniforms) + block.mvp@);
}

impl Uniforms {
    /// The uniform block that holds the identity matrix.
    pub fn new() -> (u: Uniforms)
        ensures
            u.mvp@ == identity_words(),
    {
        Uniforms { mvp: Mat4::identity().to_cols_array() }
    }

    /// The uniform block that holds `m`.
    pub fn from_mat4(m: Mat4) -> (u: Uniforms)
        ensures
            u.mvp == m.cols,
    {
        Uniforms { mvp: m.to_cols_array() }
    }

    /// The bytes of `uniforms` as a uniform buffer holds them: 64 bytes per
    /// block, the matrix column after column, every number little-endian.
    pub fn as_byte_slice(uniforms: &[Uniforms]) -> (bytes: Vec<u8>)
        ensures
            bytes@ == uniforms_bytes(uniforms@),
            bytes@.len() == MATRIX_SIZE * uniforms@.len(),
    {
        let mut bytes: Vec<u8> = Vec::new();
        let mut i: usize = 0;
        assert(uniforms@.take(0) =~= Seq::<Uniforms>::empty());
        assert(bytes@ =~= uniforms_bytes(uniforms@.take(0)));
        while i < uniforms.len()
            invariant
                i <= uniforms@.len(),
                bytes@ == uniforms_bytes(uniforms@.take(i as int)),
            decreases uniforms@.len() - i,
        {
            let block = uniforms[i];
            push_words(&mut bytes, block.mvp.as_slice());
            proof {
                lemma_uniforms_words_push(uniforms@.take(i as int), block);
                assert(uniforms@.take(i as int).push(block) =~= uniforms@.take(i + 1));
                lemma_words_bytes_concat(uniforms_words(uniforms@.take(i as int)), block.mvp@);
            }
            i += 1;
        }
        assert(uniforms@.take(uniforms@.len() as int) =~= uniforms@);
        bytes
    }
}

} // verus!

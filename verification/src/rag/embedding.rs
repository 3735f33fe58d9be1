//! Embedding vectors as the store keeps them.
//!
//! A vector is 384 32-bit floats; the store keeps it as their little-endian
//! bytes. Here a float is its bit pattern, a `u32`: the bytes of a vector
//! are the bytes of its patterns.

use vstd::prelude::*;
use vstd::bytes::{lemma_auto_spec_u32_to_from_le_bytes, spec_u32_from_le_bytes, spec_u32_to_le_bytes, u32_from_le_bytes, u32_to_le_bytes};
use vstd::slice::slice_subrange;

verus! {

/// The number of dimensions of an embedding.
pub const EMBEDDING_DIM: usize = 384;

/// The number of characters of a text that the fallback embedding reads.
pub const PSEUDO_MAX_CHARS: usize = 500;

/// The bytes of a vector: four little-endian bytes per element.
pub open spec fn spec_vector_to_blob(vector: Seq<u32>) -> Seq<u8>
    decreases vector.len(),
{
    if vector.len() == 0 {
        Seq::empty()
    } else {
        spec_vector_to_blob(vector.drop_last()) + spec_u32_to_le_bytes(vector.last())
    }
}

/// The vector that bytes hold: one element per four bytes; up to three
/// bytes at the end that fill no element are left out.
pub open spec fn spec_blob_to_vector(blob: Seq<u8>) -> Seq<u32> {
    Seq::new(blob.len() / 4, |i: int| spec_u32_from_le_bytes(blob.subrange(4 * i, 4 * i + 4)))
}

/// Whether bytes hold a whole embedding of 384 elements.
pub open spec fn spec_is_valid_embedding_blob(blob: Seq<u8>) -> bool {
    blob.len() == 4 * EMBEDDING_DIM
}

/// The slot of the fallback embedding that character `code` at position
/// `position` adds to in dimension `dimension`.
pub open spec fn spec_pseudo_slot(code: int, position: int, dimension: int) -> int {
    (code * 31 + position * 17 + dimension * 37) % (EMBEDDING_DIM as int)
}

/// The bytes of a vector are four times as many as its elements.
pub proof fn lemma_blob_len(vector: Seq<u32>)
    ensures
        spec_vector_to_blob(vector).len() == 4 * vector.len(),
    decreases vector.len(),
{
    lemma_auto_spec_u32_to_from_le_bytes();
    if vector.len() > 0 {
        lemma_blob_len(vector.drop_last());
    }
}

/// Reading the bytes of a vector gives the vector back.
pub proof fn lemma_blob_round_trip(vector: Seq<u32>)
    ensures
        spec_blob_to_vector(spec_vector_to_blob(vector)) == vector,
    decreases vector.len(),
{
    lemma_auto_spec_u32_to_from_le_bytes();
    lemma_blob_len(vector);
    let blob = spec_vector_to_blob(vector);
    let back = spec_blob_to_vector(blob);
    if vector.len() > 0 {
        let front = vector.drop_last();
        let front_blob = spec_vector_to_blob(front);
        lemma_blob_round_trip(front);
        lemma_blob_len(front);
        assert forall|i: int| 0 <= i < vector.len() implies back[i] == vector[i] by {
            if i < front.len() {
                assert(blob.subrange(4 * i, 4 * i + 4) =~= front_blob.subrange(4 * i, 4 * i + 4));
                assert(spec_blob_to_vector(front_blob)[i] == front[i]);
            } else {
                assert(blob.subrange(4 * i, 4 * i + 4) =~= spec_u32_to_le_bytes(vector.last()));
            }
        }
    }
    assert(back =~= vector);
}

/// The bytes of a vector, for the store.
pub fn vector_to_blob(vector: &[u32]) -> (res: Vec<u8>)
    ensures
        res@ == spec_vector_to_blob(vector@),
        res@.len() == 4 * vector@.len(),
        spec_blob_to_vector(res@) == vector@,
{
    let mut bytes: Vec<u8> = Vec::new();
    let mut i: usize = 0;
    while i < vector.len()
        invariant
            i <= vector@.len(),
            bytes@ == spec_vector_to_blob(vector@.take(i as int)),
        decreases vector@.len() - i,
    {
        let word = u32_to_le_bytes(vector[i]);
        bytes.extend_from_slice(word.as_slice());
        proof {
            let front = vector@.take(i + 1);
            assert(front.drop_last() =~= vector@.take(i as int));
            assert(front.last() == vector@[i as int]);
        }
        i += 1;
    }
    proof {
        assert(vector@.take(vector@.len() as int) =~= vector@);
        lemma_blob_len(vector@);
        lemma_blob_round_trip(vector@);
    }
    bytes
}

/// The vector that bytes of the store hold.
pub fn blob_to_vector(blob: &[u8]) -> (res: Vec<u32>)
    ensures
        res@ == spec_blob_to_vector(blob@),
{
    let n = blob.len();
    let count = n / 4;
    let mut vector: Vec<u32> = Vec::new();
    let mut i: usize = 0;
    while i < count
        invariant
            i <= count,
            n == blob@.len(),
            count == n / 4,
            vector@.len() == i,
            forall|j: int| 0 <= j < i ==> vector@[j] == spec_u32_from_le_bytes(blob@.subrange(4 * j, 4 * j + 4)),
        decreases count - i,
    {
        let chunk = slice_subrange(blob, 4 * i, 4 * i + 4);
        vector.push(u32_from_le_bytes(chunk));
        i += 1;
    }
    assert(vector@ =~= spec_blob_to_vector(blob@));
    vector
}

/// Whether bytes of the store hold a whole embedding. Retrieval ignores a
/// row whose bytes do not.
pub fn is_valid_embedding_blob(blob: &[u8]) -> (res: bool)
    ensures
        res == spec_is_valid_embedding_blob(blob@),
{
    blob.len() == 4 * EMBEDDING_DIM
}

/// The slot of the fallback embedding that a character adds to: its code
/// point times 31, plus its position times 17, plus the dimension times 37,
/// modulo 384.
pub fn pseudo_slot(ch: char, position: usize, dimension: usize) -> (res: usize)
    requires
        position < PSEUDO_MAX_CHARS,
        dimension < EMBEDDING_DIM,
    ensures
        res == spec_pseudo_slot(ch as int, position as int, dimension as int),
        res < EMBEDDING_DIM,
{
    let code = ch as u32;
    assert(code <= 0x10FFFF) by {
        vstd::utf8::char_is_scalar(ch);
    }
    let sum: u32 = code * 31 + (position as u32) * 17 + (dimension as u32) * 37;
    (sum % (EMBEDDING_DIM as u32)) as usize
}

/// How many characters of a text the fallback embedding reads: all of them,
/// at most 500.
pub fn pseudo_char_count(text: &str) -> (res: usize)
    ensures
        res == if text@.len() <= PSEUDO_MAX_CHARS { text@.len() as int } else { PSEUDO_MAX_CHARS as int },
{
    let n = text.unicode_len();
    if n <= PSEUDO_MAX_CHARS {
        n
    } else {
        PSEUDO_MAX_CHARS
    }
}

} // verus!

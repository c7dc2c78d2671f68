//! Words as the bytes they occupy in memory.
//!
//! Buffers are handed to an executor as bytes. Which byte of a word comes
//! first is the machine's choice, so the byte image of a sequence of words is
//! one of two: every word least significant byte first, or every word most
//! significant byte first.

use vstd::prelude::*;

verus! {

/// Byte `j` of `word`, counted from the least significant.
pub open spec fn byte_of(word: u32, j: int) -> u8 {
    if j == 0 {
        (word % 0x100) as u8
    } else if j == 1 {
        ((word / 0x100) % 0x100) as u8
    } else if j == 2 {
        ((word / 0x1_0000) % 0x100) as u8
    } else {
        ((word / 0x100_0000) % 0x100) as u8
    }
}

/// The bytes of `words`, each word least significant byte first.
pub open spec fn little_endian(words: Seq<u32>) -> Seq<u8> {
    Seq::new(4 * words.len(), |k: int| byte_of(words[k / 4], k % 4))
}

/// The bytes of `words`, each word most significant byte first.
pub open spec fn big_endian(words: Seq<u32>) -> Seq<u8> {
    Seq::new(4 * words.len(), |k: int| byte_of(words[k / 4], 3 - k % 4))
}

/// `bytes` is what `words` look like in memory, on some machine.
pub open spec fn image_of(words: Seq<u32>, bytes: Seq<u8>) -> bool {
    bytes == little_endian(words) || bytes == big_endian(words)
}

/// `bytemuck::cast_slice` from 32-bit words to bytes, copied into a vector.
///
/// The cast reinterprets the memory of the slice: it cannot fail for this
/// pair of types, gives four bytes for every word, and the bytes are the
/// words as the machine stores them. Which of the two byte orders that is,
/// the contract leaves open.
#[verifier::external_body]
pub(crate) fn bytes_of(words: &Vec<u32>) -> (bytes: Vec<u8>)
    ensures
        image_of(words@, bytes@),
{
    bytemuck::cast_slice::<u32, u8>(words.as_slice()).to_vec()
}

/// An image has four bytes for every word.
pub proof fn lemma_image_len(words: Seq<u32>, bytes: Seq<u8>)
    requires
        image_of(words, bytes),
    ensures
        bytes.len() == 4 * words.len(),
{
}

} // verus!

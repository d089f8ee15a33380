//! Bytes and 32-bit words. The engines take and give words with the least
//! significant byte first.

use vstd::prelude::*;

verus! {

/// The four bytes of a word, least significant first.
pub open spec fn spec_word_bytes(w: u32) -> Seq<u8> {
    seq![
        (w % 256) as u8,
        (w / 256 % 256) as u8,
        (w / 65536 % 256) as u8,
        (w / 16777216 % 256) as u8,
    ]
}

/// The bytes of a sequence of words, each word least significant byte
/// first.
pub open spec fn spec_words_bytes(words: Seq<u32>) -> Seq<u8> {
    Seq::new(4 * words.len(), |i: int| spec_word_bytes(words[i / 4])[i % 4])
}

/// The word made of the four bytes of `bytes` from index `at` on, least
/// significant first.
pub open spec fn spec_word_at(bytes: Seq<u8>, at: int) -> u32 {
    (bytes[at] + 256 * bytes[at + 1] + 65536 * bytes[at + 2] + 16777216 * bytes[at + 3]) as u32
}

/// The words made of the bytes of `bytes`, four bytes to a word.
pub open spec fn spec_bytes_words(bytes: Seq<u8>) -> Seq<u32> {
    Seq::new(bytes.len() / 4, |i: int| spec_word_at(bytes, 4 * i))
}

/// Taking a word apart and putting its bytes together gives the word again.
pub proof fn lemma_word_bytes_roundtrip(w: u32)
    ensures
        spec_word_bytes(w).len() == 4,
        spec_word_at(spec_word_bytes(w), 0) == w,
{
}

/// The word made of four bytes gives each of them back.
pub proof fn lemma_word_parts(b0: u8, b1: u8, b2: u8, b3: u8)
    ensures
        ({
            let w = b0 + 256 * b1 + 65536 * b2 + 16777216 * b3;
            &&& 0 <= w <= u32::MAX
            &&& w % 256 == b0
            &&& w / 256 % 256 == b1
            &&& w / 65536 % 256 == b2
            &&& w / 16777216 % 256 == b3
        }),
{
}

/// The bytes of the words made of `bytes` are `bytes` again, where the
/// length of `bytes` is a multiple of 4.
pub proof fn lemma_bytes_words_roundtrip(bytes: Seq<u8>)
    requires
        bytes.len() % 4 == 0,
    ensures
        spec_words_bytes(spec_bytes_words(bytes)) == bytes,
{
    let words = spec_bytes_words(bytes);
    assert(spec_words_bytes(words).len() == bytes.len());
    assert forall|i: int| 0 <= i < bytes.len() implies spec_words_bytes(words)[i] == bytes[i] by {
        let k = i / 4;
        lemma_word_parts(bytes[4 * k], bytes[4 * k + 1], bytes[4 * k + 2], bytes[4 * k + 3]);
        assert(words[k] == spec_word_at(bytes, 4 * k));
    }
    assert(spec_words_bytes(words) =~= bytes);
}

/// The word made of bytes `at .. at + 4` of `bytes`, least significant
/// first.
pub fn word_at(bytes: &[u8], at: usize) -> (w: u32)
    requires
        at + 4 <= bytes@.len(),
    ensures
        w == spec_word_at(bytes@, at as int),
{
    let b0: u32 = bytes[at] as u32;
    let b1: u32 = bytes[at + 1] as u32;
    let b2: u32 = bytes[at + 2] as u32;
    let b3: u32 = bytes[at + 3] as u32;
    b0 + 256 * b1 + 65536 * b2 + 16777216 * b3
}

/// Writes the bytes of `words` to `bytes`, each word least significant byte
/// first.
pub fn words_to_bytes(words: &[u32], bytes: &mut [u8])
    requires
        old(bytes)@.len() == 4 * words@.len(),
    ensures
        final(bytes)@ == spec_words_bytes(words@),
{
    let n = words.len();
    let total = bytes.len();
    let mut i: usize = 0;
    while i < n
        invariant
            i <= n,
            n == words@.len(),
            total == 4 * n,
            bytes@.len() == 4 * n,
            forall|j: int| 0 <= j < 4 * i ==> bytes@[j] == spec_word_bytes(words@[j / 4])[j % 4],
        decreases n - i,
    {
        let w: u32 = words[i];
        bytes[4 * i] = (w % 256) as u8;
        bytes[4 * i + 1] = (w / 256 % 256) as u8;
        bytes[4 * i + 2] = (w / 65536 % 256) as u8;
        bytes[4 * i + 3] = (w / 16777216 % 256) as u8;
        i = i + 1;
    }
    assert(bytes@ =~= spec_words_bytes(words@));
}

/// Copies `src` into `dst`, from index `at` of `dst` on.
pub fn copy_bytes(dst: &mut [u8], at: usize, src: &[u8])
    requires
        at + src@.len() <= old(dst)@.len(),
    ensures
        final(dst)@ == old(dst)@.subrange(0, at as int) + src@ + old(dst)@.subrange(
            at + src@.len(),
            old(dst)@.len() as int,
        ),
{
    let n = src.len();
    let total = dst.len();
    let mut i: usize = 0;
    while i < n
        invariant
            i <= n,
            n == src@.len(),
            total == dst@.len(),
            total == old(dst)@.len(),
            at + n <= total,
            forall|j: int| 0 <= j < at ==> dst@[j] == old(dst)@[j],
            forall|j: int| at <= j < at + i ==> dst@[j] == src@[j - at],
            forall|j: int| at + i <= j < total ==> dst@[j] == old(dst)@[j],
        decreases n - i,
    {
        dst[at + i] = src[i];
        i = i + 1;
    }
    assert(dst@ =~= old(dst)@.subrange(0, at as int) + src@ + old(dst)@.subrange(
        at + src@.len(),
        old(dst)@.len() as int,
    ));
}

} // verus!

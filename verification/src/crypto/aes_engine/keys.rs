//! Key material for the key store of the AES engine.

use crate::crypto::words::copy_bytes;
use vstd::prelude::*;

verus! {

/// Number of areas of 128 bits in the key store.
pub const KEY_AREAS: usize = 8;

/// Keys laid out as the key store takes them: areas of 16 bytes, one after
/// the other.
#[derive(Debug, Clone, Copy)]
pub struct AesKeys {
    /// 1024 bits of memory (8 128-bit keys).
    pub keys: [u8; 128],
    /// The type of keys stored.
    pub sizes: AesKeySize,
    /// How many areas are filled.
    pub count: u8,
    /// The first area of the key store that the keys go to.
    pub start_area: u8,
}

#[derive(Debug, Clone, Copy, PartialEq, Eq, Structural)]
pub enum AesKeySize {
    Key128,
    Key192,
    Key256,
}

#[derive(Debug, Clone, Copy)]
pub enum AesKey {
    Key128([u8; 16]),
    Key192([u8; 24]),
    Key256([u8; 32]),
}

/// The value of the key size field of the key store for `size`.
pub open spec fn spec_key_size_bits(size: AesKeySize) -> u32 {
    match size {
        AesKeySize::Key128 => 1,
        AesKeySize::Key192 => 2,
        AesKeySize::Key256 => 3,
    }
}

/// Number of areas that a key takes: one for a key of 128 bits, two for a
/// longer one.
pub open spec fn spec_key_areas(key: AesKey) -> nat {
    match key {
        AesKey::Key128(_) => 1,
        AesKey::Key192(_) => 2,
        AesKey::Key256(_) => 2,
    }
}

/// The bytes of the areas that a key takes: the key, and zeros where the
/// key ends before its last area does.
pub open spec fn spec_key_bytes(key: AesKey) -> Seq<u8> {
    match key {
        AesKey::Key128(k) => k@,
        AesKey::Key192(k) => k@ + Seq::new(8, |i: int| 0u8),
        AesKey::Key256(k) => k@,
    }
}

/// Number of areas that `keys` take together.
pub open spec fn spec_keys_areas(keys: Seq<AesKey>) -> nat
    decreases keys.len(),
{
    if keys.len() == 0 {
        0
    } else {
        spec_keys_areas(keys.drop_last()) + spec_key_areas(keys.last())
    }
}

/// The bytes of the areas that `keys` take, in the order of the keys.
pub open spec fn spec_keys_bytes(keys: Seq<AesKey>) -> Seq<u8>
    decreases keys.len(),
{
    if keys.len() == 0 {
        Seq::empty()
    } else {
        spec_keys_bytes(keys.drop_last()) + spec_key_bytes(keys.last())
    }
}

/// The areas of `keys` hold 16 bytes each.
pub proof fn lemma_keys_bytes_len(keys: Seq<AesKey>)
    ensures
        spec_keys_bytes(keys).len() == 16 * spec_keys_areas(keys),
    decreases keys.len(),
{
    if keys.len() > 0 {
        lemma_keys_bytes_len(keys.drop_last());
    }
}

impl AesKeySize {
    /// The value of the key size field of the key store.
    pub fn bits(&self) -> (bits: u32)
        ensures
            bits == spec_key_size_bits(*self),
    {
        match self {
            AesKeySize::Key128 => 1,
            AesKeySize::Key192 => 2,
            AesKeySize::Key256 => 3,
        }
    }
}

impl AesKey {
    /// Number of areas that the key takes.
    pub fn areas(&self) -> (areas: usize)
        ensures
            areas == spec_key_areas(*self),
    {
        match self {
            AesKey::Key128(_) => 1,
            AesKey::Key192(_) => 2,
            AesKey::Key256(_) => 2,
        }
    }
}

/// Whether `keys` fit in the key store from `start_area` on.
pub fn keys_fit(keys: &[AesKey], start_area: u8) -> (fit: bool)
    ensures
        fit == (start_area + spec_keys_areas(keys@) <= KEY_AREAS),
{
    if start_area as usize > KEY_AREAS {
        return false;
    }
    let n = keys.len();
    let mut areas: usize = start_area as usize;
    let mut i: usize = 0;
    assert(keys@.subrange(0, 0) =~= Seq::<AesKey>::empty());
    while i < n
        invariant
            i <= n,
            n == keys@.len(),
            areas == start_area + spec_keys_areas(keys@.subrange(0, i as int)),
            areas <= KEY_AREAS,
        decreases n - i,
    {
        proof {
            assert(keys@.subrange(0, i + 1).drop_last() =~= keys@.subrange(0, i as int));
            lemma_keys_areas_prefix(keys@, i + 1);
        }
        areas = areas + keys[i].areas();
        if areas > KEY_AREAS {
            return false;
        }
        i = i + 1;
    }
    assert(keys@.subrange(0, n as int) =~= keys@);
    true
}

impl AesKeys {
    /// The keys fit in the key store from `start_area` on.
    pub open spec fn wf(&self) -> bool {
        self.start_area + self.count <= KEY_AREAS
    }

    /// Whether the keys fit in the key store from `start_area` on.
    pub fn is_valid(&self) -> (valid: bool)
        ensures
            valid == self.wf(),
    {
        self.start_area as usize + self.count as usize <= KEY_AREAS
    }

    /// Create a correctly aligned key buffer for the AES engine: every key
    /// starts at an area of its own, in the order of `keys`, and the rest of
    /// the buffer is zero.
    pub fn create(keys: &[AesKey], sizes: AesKeySize, start_area: u8) -> (aligned: Self)
        requires
            start_area + spec_keys_areas(keys@) <= KEY_AREAS,
        ensures
            aligned.wf(),
            aligned.sizes == sizes,
            aligned.start_area == start_area,
            aligned.count == spec_keys_areas(keys@),
            aligned.keys@ == spec_keys_bytes(keys@) + Seq::new(
                (128 - 16 * spec_keys_areas(keys@)) as nat,
                |i: int| 0u8,
            ),
    {
        let mut aligned = AesKeys { keys: [0; 128], sizes, count: 0, start_area };
        let mut offset: usize = 0;
        let n = keys.len();
        let mut i: usize = 0;
        proof {
            assert(keys@.subrange(0, 0) =~= Seq::<AesKey>::empty());
            assert(aligned.keys@ =~= spec_keys_bytes(keys@.subrange(0, 0)) + Seq::new(
                128,
                |i: int| 0u8,
            ));
        }
        while i < n
            invariant
                i <= n,
                n == keys@.len(),
                start_area + spec_keys_areas(keys@) <= KEY_AREAS,
                aligned.sizes == sizes,
                aligned.start_area == start_area,
                aligned.count == spec_keys_areas(keys@.subrange(0, i as int)),
                spec_keys_areas(keys@.subrange(0, i as int)) <= spec_keys_areas(keys@),
                offset == 16 * aligned.count,
                aligned.keys@ == spec_keys_bytes(keys@.subrange(0, i as int)) + Seq::new(
                    (128 - offset) as nat,
                    |i: int| 0u8,
                ),
            decreases n - i,
        {
            let ghost before = keys@.subrange(0, i as int);
            let ghost after = keys@.subrange(0, i + 1);
            proof {
                assert(after.drop_last() =~= before);
                assert(after.last() == keys@[i as int]);
                lemma_keys_areas_prefix(keys@, i + 1);
                lemma_keys_bytes_len(before);
            }
            match &keys[i] {
                AesKey::Key128(k) => {
                    copy_bytes(&mut aligned.keys, offset, k.as_slice());
                    offset = offset + 16;
                    aligned.count = aligned.count + 1;
                },
                AesKey::Key192(k) => {
                    copy_bytes(&mut aligned.keys, offset, k.as_slice());
                    offset = offset + 32;
                    aligned.count = aligned.count + 2;
                },
                AesKey::Key256(k) => {
                    copy_bytes(&mut aligned.keys, offset, k.as_slice());
                    offset = offset + 32;
                    aligned.count = aligned.count + 2;
                },
            }
            proof {
                assert(aligned.keys@ =~= spec_keys_bytes(after) + Seq::new(
                    (128 - offset) as nat,
                    |i: int| 0u8,
                ));
            }
            i = i + 1;
        }
        assert(keys@.subrange(0, n as int) =~= keys@);
        aligned
    }

    /// The bytes that DMA channel 0 sends to the key store.
    pub fn material(&self) -> (bytes: &[u8])
        requires
            self.wf(),
        ensures
            bytes@ == self.keys@.subrange(0, 16 * self.count),
    {
        vstd::slice::slice_subrange(self.keys.as_slice(), 0, 16 * (self.count as usize))
    }
}

/// The first `n` keys take no more areas than all of them.
pub proof fn lemma_keys_areas_prefix(keys: Seq<AesKey>, n: int)
    requires
        0 <= n <= keys.len(),
    ensures
        spec_keys_areas(keys.subrange(0, n)) <= spec_keys_areas(keys),
    decreases keys.len(),
{
    if n < keys.len() {
        lemma_keys_areas_prefix(keys.drop_last(), n);
        assert(keys.drop_last().subrange(0, n) =~= keys.subrange(0, n));
    } else {
        assert(keys.subrange(0, n) =~= keys);
    }
}

} // verus!

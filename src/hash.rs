//! Perceptual image hashes as eight bytes, and their big-endian reading as an
//! `i64` for storage.
use vstd::prelude::*;

verus! {

/// A perceptual image hash.
pub struct ImageHash(pub [u8; 8]);

/// The eight bytes of `x`, most significant first.
pub open spec fn be_bytes(x: u64) -> Seq<u8> {
    seq![
        (x >> 56) as u8,
        (x >> 48) as u8,
        (x >> 40) as u8,
        (x >> 32) as u8,
        (x >> 24) as u8,
        (x >> 16) as u8,
        (x >> 8) as u8,
        x as u8,
    ]
}

/// The word whose bytes, most significant first, are `b[0..8]`.
pub open spec fn be_word(b: Seq<u8>) -> u64 {
    ((b[0] as u64) << 56) | ((b[1] as u64) << 48) | ((b[2] as u64) << 40) | ((b[3] as u64) << 32)
        | ((b[4] as u64) << 24) | ((b[5] as u64) << 16) | ((b[6] as u64) << 8) | (b[7] as u64)
}

impl std::ops::Deref for ImageHash {
    type Target = [u8; 8];

    fn deref(&self) -> (r: &[u8; 8])
        ensures
            r@ == self.0@,
    {
        &self.0
    }
}

impl From<i64> for ImageHash {
    fn from(value: i64) -> (r: Self) {
        let x = value as u64;
        ImageHash(
            [
                (x >> 56) as u8,
                (x >> 48) as u8,
                (x >> 40) as u8,
                (x >> 32) as u8,
                (x >> 24) as u8,
                (x >> 16) as u8,
                (x >> 8) as u8,
                x as u8,
            ],
        )
    }
}

impl vstd::std_specs::convert::FromSpecImpl<i64> for ImageHash {
    open spec fn obeys_from_spec() -> bool {
        true
    }

    open spec fn from_spec(v: i64) -> ImageHash {
        ImageHash(
            [
                ((v as u64) >> 56) as u8,
                ((v as u64) >> 48) as u8,
                ((v as u64) >> 40) as u8,
                ((v as u64) >> 32) as u8,
                ((v as u64) >> 24) as u8,
                ((v as u64) >> 16) as u8,
                ((v as u64) >> 8) as u8,
                (v as u64) as u8,
            ],
        )
    }
}

impl From<ImageHash> for i64 {
    fn from(val: ImageHash) -> (r: i64) {
        let b = val.0;
        let x: u64 = ((b[0] as u64) << 56) | ((b[1] as u64) << 48) | ((b[2] as u64) << 40) | ((
        b[3] as u64) << 32) | ((b[4] as u64) << 24) | ((b[5] as u64) << 16) | ((b[6] as u64) << 8)
            | (b[7] as u64);
        x as i64
    }
}

impl vstd::std_specs::convert::FromSpecImpl<ImageHash> for i64 {
    open spec fn obeys_from_spec() -> bool {
        true
    }

    open spec fn from_spec(val: ImageHash) -> i64 {
        be_word(val.0@) as i64
    }
}

/// Converting a hash to an `i64` reads its bytes as a big-endian word.
pub fn hash_to_i64(h: ImageHash) -> (r: i64)
    ensures
        r as u64 == be_word(h.0@),
{
    let ghost w = be_word(h.0@);
    proof {
        assert((w as i64) as u64 == w) by (bit_vector);
    }
    i64::from(h)
}

/// Converting an `i64` to a hash writes its big-endian bytes.
pub fn i64_to_hash(v: i64) -> (r: ImageHash)
    ensures
        r.0@ == be_bytes(v as u64),
{
    let r = ImageHash::from(v);
    proof {
        assert(r.0@ =~= be_bytes(v as u64));
    }
    r
}

/// Converting an `i64` to a hash and back gives the same `i64`.
pub proof fn lemma_be_round_trip(v: i64)
    ensures
        be_word(be_bytes(v as u64)) as i64 == v,
{
    let x = v as u64;
    let b = be_bytes(x);
    assert(((((x >> 56) as u8) as u64) << 56) | ((((x >> 48) as u8) as u64) << 48)
        | ((((x >> 40) as u8) as u64) << 40) | ((((x >> 32) as u8) as u64) << 32)
        | ((((x >> 24) as u8) as u64) << 24) | ((((x >> 16) as u8) as u64) << 16)
        | ((((x >> 8) as u8) as u64) << 8) | ((x as u8) as u64) == x) by (bit_vector);
    assert((x as i64) == v) by (bit_vector)
        requires
            x == v as u64,
    ;
}

} // verus!

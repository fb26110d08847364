//! Fixed-width big-endian byte encodings and the 160/256-bit word types
//! (addresses, key hashes, content hashes, transaction hashes).

use vstd::prelude::*;

verus! {

// ------------------------------------------------------------------
// Big-endian views of the fixed-width integers.
// ------------------------------------------------------------------

pub open spec fn spec_u16_be(x: u16) -> Seq<u8> {
    seq![(x >> 8) as u8, x as u8]
}

pub open spec fn spec_u32_be(x: u32) -> Seq<u8> {
    seq![(x >> 24) as u8, (x >> 16) as u8, (x >> 8) as u8, x as u8]
}

pub open spec fn spec_u64_be(x: u64) -> Seq<u8> {
    seq![
        (x >> 56) as u8,
        (x >> 48) as u8,
        (x >> 40) as u8,
        (x >> 32) as u8,
        (x >> 24) as u8,
        (x >> 16) as u8,
        (x >> 8) as u8,
        x as u8,
    ]
}

pub open spec fn spec_u128_be(x: u128) -> Seq<u8> {
    seq![
        (x >> 120) as u8,
        (x >> 112) as u8,
        (x >> 104) as u8,
        (x >> 96) as u8,
        (x >> 88) as u8,
        (x >> 80) as u8,
        (x >> 72) as u8,
        (x >> 64) as u8,
        (x >> 56) as u8,
        (x >> 48) as u8,
        (x >> 40) as u8,
        (x >> 32) as u8,
        (x >> 24) as u8,
        (x >> 16) as u8,
        (x >> 8) as u8,
        x as u8,
    ]
}

/// Forty-bit encoding, used by the packed-amount codec; meaningful only for
/// values below `1 << 40`.
pub open spec fn spec_u40_be(x: u64) -> Seq<u8> {
    seq![(x >> 32) as u8, (x >> 24) as u8, (x >> 16) as u8, (x >> 8) as u8, x as u8]
}

// ------------------------------------------------------------------
// Each width's encoding is injective, so equal canonical bytes force
// equal field values.
// ------------------------------------------------------------------

pub proof fn lemma_u16_be_injective(x: u16, y: u16)
    ensures
        spec_u16_be(x) == spec_u16_be(y) ==> x == y,
{
    if spec_u16_be(x) == spec_u16_be(y) {
        assert(spec_u16_be(x)[0] == spec_u16_be(y)[0]);
        assert(spec_u16_be(x)[1] == spec_u16_be(y)[1]);
        assert(((x >> 8) as u8 == (y >> 8) as u8 && x as u8 == y as u8) ==> x == y)
            by (bit_vector);
    }
}

pub proof fn lemma_u32_be_injective(x: u32, y: u32)
    ensures
        spec_u32_be(x) == spec_u32_be(y) ==> x == y,
{
    if spec_u32_be(x) == spec_u32_be(y) {
        assert(spec_u32_be(x)[0] == spec_u32_be(y)[0]);
        assert(spec_u32_be(x)[1] == spec_u32_be(y)[1]);
        assert(spec_u32_be(x)[2] == spec_u32_be(y)[2]);
        assert(spec_u32_be(x)[3] == spec_u32_be(y)[3]);
        assert(((x >> 24) as u8 == (y >> 24) as u8 && (x >> 16) as u8 == (y >> 16) as u8
            && (x >> 8) as u8 == (y >> 8) as u8 && x as u8 == y as u8) ==> x == y)
            by (bit_vector);
    }
}

pub proof fn lemma_u64_be_injective(x: u64, y: u64)
    ensures
        spec_u64_be(x) == spec_u64_be(y) ==> x == y,
{
    if spec_u64_be(x) == spec_u64_be(y) {
        assert forall|i: int| 0 <= i < 8 implies spec_u64_be(x)[i] == spec_u64_be(y)[i] by {}
        assert(((x >> 56) as u8 == (y >> 56) as u8 && (x >> 48) as u8 == (y >> 48) as u8
            && (x >> 40) as u8 == (y >> 40) as u8 && (x >> 32) as u8 == (y >> 32) as u8
            && (x >> 24) as u8 == (y >> 24) as u8 && (x >> 16) as u8 == (y >> 16) as u8
            && (x >> 8) as u8 == (y >> 8) as u8 && x as u8 == y as u8) ==> x == y)
            by (bit_vector);
    }
}

pub proof fn lemma_u128_be_injective(x: u128, y: u128)
    ensures
        spec_u128_be(x) == spec_u128_be(y) ==> x == y,
{
    if spec_u128_be(x) == spec_u128_be(y) {
        assert forall|i: int| 0 <= i < 16 implies spec_u128_be(x)[i] == spec_u128_be(y)[i] by {}
        assert(((x >> 120) as u8 == (y >> 120) as u8 && (x >> 112) as u8 == (y >> 112) as u8
            && (x >> 104) as u8 == (y >> 104) as u8 && (x >> 96) as u8 == (y >> 96) as u8
            && (x >> 88) as u8 == (y >> 88) as u8 && (x >> 80) as u8 == (y >> 80) as u8
            && (x >> 72) as u8 == (y >> 72) as u8 && (x >> 64) as u8 == (y >> 64) as u8
            && (x >> 56) as u8 == (y >> 56) as u8 && (x >> 48) as u8 == (y >> 48) as u8
            && (x >> 40) as u8 == (y >> 40) as u8 && (x >> 32) as u8 == (y >> 32) as u8
            && (x >> 24) as u8 == (y >> 24) as u8 && (x >> 16) as u8 == (y >> 16) as u8
            && (x >> 8) as u8 == (y >> 8) as u8 && x as u8 == y as u8) ==> x == y)
            by (bit_vector);
    }
}

// ------------------------------------------------------------------
// Executable encoders: append the big-endian bytes of a value.
// ------------------------------------------------------------------

pub fn push_u16_be(out: &mut Vec<u8>, x: u16)
    ensures
        final(out)@ == old(out)@ + spec_u16_be(x),
{
    out.push((x >> 8) as u8);
    out.push(x as u8);
    assert(final(out)@ =~= old(out)@ + spec_u16_be(x));
}

pub fn push_u32_be(out: &mut Vec<u8>, x: u32)
    ensures
        final(out)@ == old(out)@ + spec_u32_be(x),
{
    out.push((x >> 24) as u8);
    out.push((x >> 16) as u8);
    out.push((x >> 8) as u8);
    out.push(x as u8);
    assert(final(out)@ =~= old(out)@ + spec_u32_be(x));
}

pub fn push_u64_be(out: &mut Vec<u8>, x: u64)
    ensures
        final(out)@ == old(out)@ + spec_u64_be(x),
{
    out.push((x >> 56) as u8);
    out.push((x >> 48) as u8);
    out.push((x >> 40) as u8);
    out.push((x >> 32) as u8);
    out.push((x >> 24) as u8);
    out.push((x >> 16) as u8);
    out.push((x >> 8) as u8);
    out.push(x as u8);
    assert(final(out)@ =~= old(out)@ + spec_u64_be(x));
}

pub fn push_u128_be(out: &mut Vec<u8>, x: u128)
    ensures
        final(out)@ == old(out)@ + spec_u128_be(x),
{
    out.push((x >> 120) as u8);
    out.push((x >> 112) as u8);
    out.push((x >> 104) as u8);
    out.push((x >> 96) as u8);
    out.push((x >> 88) as u8);
    out.push((x >> 80) as u8);
    out.push((x >> 72) as u8);
    out.push((x >> 64) as u8);
    out.push((x >> 56) as u8);
    out.push((x >> 48) as u8);
    out.push((x >> 40) as u8);
    out.push((x >> 32) as u8);
    out.push((x >> 24) as u8);
    out.push((x >> 16) as u8);
    out.push((x >> 8) as u8);
    out.push(x as u8);
    assert(final(out)@ =~= old(out)@ + spec_u128_be(x));
}

pub fn push_u40_be(out: &mut Vec<u8>, x: u64)
    requires
        x < 0x100_0000_0000,
    ensures
        final(out)@ == old(out)@ + spec_u40_be(x),
{
    out.push((x >> 32) as u8);
    out.push((x >> 24) as u8);
    out.push((x >> 16) as u8);
    out.push((x >> 8) as u8);
    out.push(x as u8);
    assert(final(out)@ =~= old(out)@ + spec_u40_be(x));
}

// ------------------------------------------------------------------
// Executable decoders: rebuild the value whose encoding is the given bytes.
// ------------------------------------------------------------------

pub fn u16_from_be(b0: u8, b1: u8) -> (x: u16)
    ensures
        spec_u16_be(x) == seq![b0, b1],
{
    let x: u16 = ((b0 as u16) << 8) | (b1 as u16);
    proof {
        let y: u16 = ((b0 as u16) << 8) | (b1 as u16);
        assert((y >> 8) as u8 == b0 && y as u8 == b1) by (bit_vector)
            requires
                y == ((b0 as u16) << 8) | (b1 as u16),
        ;
        assert(spec_u16_be(x) =~= seq![b0, b1]);
    }
    x
}

pub fn u32_from_be(b0: u8, b1: u8, b2: u8, b3: u8) -> (x: u32)
    ensures
        spec_u32_be(x) == seq![b0, b1, b2, b3],
{
    let x: u32 = ((b0 as u32) << 24) | ((b1 as u32) << 16) | ((b2 as u32) << 8) | (b3 as u32);
    proof {
        let y: u32 = ((b0 as u32) << 24) | ((b1 as u32) << 16) | ((b2 as u32) << 8) | (b3 as u32);
        assert((y >> 24) as u8 == b0 && (y >> 16) as u8 == b1 && (y >> 8) as u8 == b2 && y as u8
            == b3) by (bit_vector)
            requires
                y == ((b0 as u32) << 24) | ((b1 as u32) << 16) | ((b2 as u32) << 8) | (b3 as u32),
        ;
        assert(spec_u32_be(x) =~= seq![b0, b1, b2, b3]);
    }
    x
}

#[allow(clippy::too_many_arguments)]
pub fn u128_from_be(
    b0: u8,
    b1: u8,
    b2: u8,
    b3: u8,
    b4: u8,
    b5: u8,
    b6: u8,
    b7: u8,
    b8: u8,
    b9: u8,
    b10: u8,
    b11: u8,
    b12: u8,
    b13: u8,
    b14: u8,
    b15: u8,
) -> (x: u128)
    ensures
        spec_u128_be(x) == seq![b0, b1, b2, b3, b4, b5, b6, b7, b8, b9, b10, b11, b12, b13, b14, b15],
{
    let x: u128 = ((b0 as u128) << 120) | ((b1 as u128) << 112) | ((b2 as u128) << 104) | ((
    b3 as u128) << 96) | ((b4 as u128) << 88) | ((b5 as u128) << 80) | ((b6 as u128) << 72) | ((
    b7 as u128) << 64) | ((b8 as u128) << 56) | ((b9 as u128) << 48) | ((b10 as u128) << 40) | ((
    b11 as u128) << 32) | ((b12 as u128) << 24) | ((b13 as u128) << 16) | ((b14 as u128) << 8) | (
    b15 as u128);
    proof {
        let y = x;
        assert((y >> 120) as u8 == b0 && (y >> 112) as u8 == b1 && (y >> 104) as u8 == b2 && (y
            >> 96) as u8 == b3 && (y >> 88) as u8 == b4 && (y >> 80) as u8 == b5 && (y >> 72) as u8
            == b6 && (y >> 64) as u8 == b7 && (y >> 56) as u8 == b8 && (y >> 48) as u8 == b9 && (y
            >> 40) as u8 == b10 && (y >> 32) as u8 == b11 && (y >> 24) as u8 == b12 && (y
            >> 16) as u8 == b13 && (y >> 8) as u8 == b14 && y as u8 == b15) by (bit_vector)
            requires
                y == ((b0 as u128) << 120) | ((b1 as u128) << 112) | ((b2 as u128) << 104) | ((
                b3 as u128) << 96) | ((b4 as u128) << 88) | ((b5 as u128) << 80) | ((b6 as u128)
                    << 72) | ((b7 as u128) << 64) | ((b8 as u128) << 56) | ((b9 as u128) << 48) | ((
                b10 as u128) << 40) | ((b11 as u128) << 32) | ((b12 as u128) << 24) | ((b13 as u128)
                    << 16) | ((b14 as u128) << 8) | (b15 as u128),
        ;
        assert(spec_u128_be(x) =~= seq![
            b0,
            b1,
            b2,
            b3,
            b4,
            b5,
            b6,
            b7,
            b8,
            b9,
            b10,
            b11,
            b12,
            b13,
            b14,
            b15,
        ]);
    }
    x
}

// ------------------------------------------------------------------
// Word types: 20-byte addresses and key hashes, 32-byte hashes, held as
// machine words (high word first).
// ------------------------------------------------------------------

/// A 20-byte base-chain address: 4 high bytes in `hi`, 16 low bytes in `lo`.
#[derive(Clone, Copy, PartialEq, Eq, Structural, Debug, Hash)]
pub struct Address {
    pub hi: u32,
    pub lo: u128,
}

impl Address {
    pub open spec fn spec_bytes(self) -> Seq<u8> {
        spec_u32_be(self.hi) + spec_u128_be(self.lo)
    }

    pub open spec fn spec_is_zero(self) -> bool {
        self.hi == 0 && self.lo == 0
    }

    /// The all-zero address, never a legal transfer destination.
    pub fn zero() -> (r: Address)
        ensures
            r.spec_is_zero(),
    {
        Address { hi: 0, lo: 0 }
    }

    pub fn is_zero(&self) -> (r: bool)
        ensures
            r == self.spec_is_zero(),
    {
        self.hi == 0 && self.lo == 0
    }

    /// Appends the 20-byte encoding of the address.
    pub fn push_bytes(&self, out: &mut Vec<u8>)
        ensures
            final(out)@ == old(out)@ + self.spec_bytes(),
    {
        push_u32_be(out, self.hi);
        push_u128_be(out, self.lo);
        assert(final(out)@ =~= old(out)@ + self.spec_bytes());
    }

    pub proof fn lemma_bytes_injective(x: Address, y: Address)
        ensures
            x.spec_bytes() == y.spec_bytes() ==> x == y,
    {
        if x.spec_bytes() == y.spec_bytes() {
            assert(spec_u32_be(x.hi) =~= x.spec_bytes().subrange(0, 4));
            assert(spec_u32_be(y.hi) =~= y.spec_bytes().subrange(0, 4));
            assert(spec_u128_be(x.lo) =~= x.spec_bytes().subrange(4, 20));
            assert(spec_u128_be(y.lo) =~= y.spec_bytes().subrange(4, 20));
            lemma_u32_be_injective(x.hi, y.hi);
            lemma_u128_be_injective(x.lo, y.lo);
        }
    }
}

/// A 32-byte word (content hashes), high half first.
#[derive(Clone, Copy, PartialEq, Eq, Structural, Debug, Hash)]
pub struct H256 {
    pub hi: u128,
    pub lo: u128,
}

impl H256 {
    pub open spec fn spec_bytes(self) -> Seq<u8> {
        spec_u128_be(self.hi) + spec_u128_be(self.lo)
    }

    pub fn push_bytes(&self, out: &mut Vec<u8>)
        ensures
            final(out)@ == old(out)@ + self.spec_bytes(),
    {
        push_u128_be(out, self.hi);
        push_u128_be(out, self.lo);
        assert(final(out)@ =~= old(out)@ + self.spec_bytes());
    }

    pub proof fn lemma_bytes_injective(x: H256, y: H256)
        ensures
            x.spec_bytes() == y.spec_bytes() ==> x == y,
    {
        if x.spec_bytes() == y.spec_bytes() {
            assert(spec_u128_be(x.hi) =~= x.spec_bytes().subrange(0, 16));
            assert(spec_u128_be(y.hi) =~= y.spec_bytes().subrange(0, 16));
            assert(spec_u128_be(x.lo) =~= x.spec_bytes().subrange(16, 32));
            assert(spec_u128_be(y.lo) =~= y.spec_bytes().subrange(16, 32));
            lemma_u128_be_injective(x.hi, y.hi);
            lemma_u128_be_injective(x.lo, y.lo);
        }
    }
}

/// The 20-byte hash of a rollup-native public key, stored per account and
/// recovered from native signatures.
#[derive(Clone, Copy, PartialEq, Eq, Structural, Debug, Hash)]
pub struct PubKeyHash {
    pub hi: u32,
    pub lo: u128,
}

impl PubKeyHash {
    pub open spec fn spec_is_default(self) -> bool {
        self.hi == 0 && self.lo == 0
    }

    /// The key hash of an account that never set a signing key; such an
    /// account cannot authorize outgoing transactions.
    pub fn default_hash() -> (r: PubKeyHash)
        ensures
            r.spec_is_default(),
    {
        PubKeyHash { hi: 0, lo: 0 }
    }

    pub fn is_default(&self) -> (r: bool)
        ensures
            r == self.spec_is_default(),
    {
        self.hi == 0 && self.lo == 0
    }

    pub open spec fn spec_bytes(self) -> Seq<u8> {
        spec_u32_be(self.hi) + spec_u128_be(self.lo)
    }

    pub fn push_bytes(&self, out: &mut Vec<u8>)
        ensures
            final(out)@ == old(out)@ + self.spec_bytes(),
    {
        push_u32_be(out, self.hi);
        push_u128_be(out, self.lo);
        assert(final(out)@ =~= old(out)@ + self.spec_bytes());
    }
}

/// The 32-byte content hash of a transaction's canonical bytes.
#[derive(Clone, Copy, PartialEq, Eq, Structural, Debug, Hash)]
pub struct TxHash {
    pub hi: u128,
    pub lo: u128,
}

} // verus!

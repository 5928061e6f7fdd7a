use vstd::prelude::*;

verus! {

/// No option set: works on every platform, slowest.
pub const FLAG_DEFAULT: u32 = 0;

/// Allocate memory in large pages.
pub const FLAG_LARGE_PAGES: u32 = 1;

/// The VM uses hardware accelerated AES.
pub const FLAG_HARD_AES: u32 = 2;

/// The VM uses the full dataset.
pub const FLAG_FULL_MEM: u32 = 4;

/// The VM uses a JIT compiler.
pub const FLAG_JIT: u32 = 8;

/// JIT pages are never writable and executable at the same time.
pub const FLAG_SECURE: u32 = 16;

/// Use the SSSE3 extension to speed up Argon2 operations.
pub const FLAG_ARGON2_SSSE3: u32 = 32;

/// Use the AVX2 extension to speed up Argon2 operations.
pub const FLAG_ARGON2_AVX2: u32 = 64;

/// Both Argon2 extension bits together.
pub const FLAG_ARGON2: u32 = 96;

/// Every bit that the engine defines.
pub const ALL_BITS: u32 = 127;

/// Whether `bits` holds every bit of `b`.
pub open spec fn has_bits(bits: u32, b: u32) -> bool {
    bits & b == b
}

/// Whether `bits` holds only bits that the engine defines.
pub open spec fn known_bits(bits: u32) -> bool {
    bits & !ALL_BITS == 0
}

/// Options used when allocating the RandomX cache, dataset or VM.
#[derive(Clone, Copy, Debug, PartialEq, Eq, Structural)]
pub struct RandomxFlags {
    bits: u32,
}

impl View for RandomxFlags {
    type V = u32;

    closed spec fn view(&self) -> u32 {
        self.bits
    }
}

impl RandomxFlags {
    /// The flag set with no bit.
    pub fn empty() -> (r: RandomxFlags)
        ensures
            r@ == 0,
    {
        RandomxFlags { bits: FLAG_DEFAULT }
    }

    /// The flag set with every bit that the engine defines.
    pub fn all() -> (r: RandomxFlags)
        ensures
            r@ == ALL_BITS,
    {
        RandomxFlags { bits: ALL_BITS }
    }

    /// The flag set of `bits`, or `None` where `bits` holds a bit that the
    /// engine does not define.
    pub fn from_bits(bits: u32) -> (r: Option<RandomxFlags>)
        ensures
            r.is_some() <==> known_bits(bits),
            r.is_some() ==> r.unwrap()@ == bits,
    {
        if bits & !ALL_BITS == 0 {
            Some(RandomxFlags { bits })
        } else {
            None
        }
    }

    /// The flag set of the defined bits of `bits`; the others are dropped.
    pub fn from_bits_truncate(bits: u32) -> (r: RandomxFlags)
        ensures
            r@ == bits & ALL_BITS,
            known_bits(r@),
    {
        let r = bits & ALL_BITS;
        assert(r & !ALL_BITS == 0) by (bit_vector)
            requires
                r == bits & ALL_BITS,
                ALL_BITS == 127u32,
        ;
        RandomxFlags { bits: r }
    }

    /// The raw bitmask.
    pub fn bits(&self) -> (r: u32)
        ensures
            r == self@,
    {
        self.bits
    }

    /// Whether no bit is set.
    pub fn is_empty(&self) -> (r: bool)
        ensures
            r <==> self@ == 0,
    {
        self.bits == 0
    }

    /// Whether every bit of `other` is set here.
    pub fn contains(&self, other: RandomxFlags) -> (r: bool)
        ensures
            r <==> has_bits(self@, other@),
    {
        self.bits & other.bits == other.bits
    }

    /// Whether some bit of `other` is set here.
    pub fn intersects(&self, other: RandomxFlags) -> (r: bool)
        ensures
            r <==> self@ & other@ != 0,
    {
        self.bits & other.bits != 0
    }

    /// This flag set with the bits of `other` set as well.
    pub fn with(self, other: RandomxFlags) -> (r: RandomxFlags)
        ensures
            r@ == self@ | other@,
            known_bits(self@) && known_bits(other@) ==> known_bits(r@),
    {
        let a = self.bits;
        let b = other.bits;
        let r = a | b;
        assert((a & !ALL_BITS == 0 && b & !ALL_BITS == 0) ==> r & !ALL_BITS == 0) by (bit_vector)
            requires
                r == a | b,
        ;
        RandomxFlags { bits: r }
    }

    /// This flag set with the bits of `other` cleared.
    pub fn without(self, other: RandomxFlags) -> (r: RandomxFlags)
        ensures
            r@ == self@ & !other@,
            known_bits(self@) ==> known_bits(r@),
    {
        let a = self.bits;
        let b = other.bits;
        let r = a & !b;
        assert(a & !ALL_BITS == 0 ==> r & !ALL_BITS == 0) by (bit_vector)
            requires
                r == a & !b,
        ;
        RandomxFlags { bits: r }
    }

    /// Sets the bits of `other`.
    pub fn insert(&mut self, other: RandomxFlags)
        ensures
            final(self)@ == old(self)@ | other@,
    {
        self.bits = self.bits | other.bits;
    }

    /// Clears the bits of `other`.
    pub fn remove(&mut self, other: RandomxFlags)
        ensures
            final(self)@ == old(self)@ & !other@,
    {
        self.bits = self.bits & !other.bits;
    }
}

/// Setting a group of bits makes the set contain it; clearing it makes the
/// set hold none of it; and clearing then setting a group that was already
/// there gives the set back.
pub proof fn lemma_with_without(f: RandomxFlags, b: RandomxFlags)
    ensures
        has_bits(f@ | b@, b@),
        (f@ & !b@) & b@ == 0,
        has_bits(f@, b@) ==> (f@ & !b@) | b@ == f@,
{
    let x = f@;
    let y = b@;
    assert((x | y) & y == y) by (bit_vector);
    assert((x & !y) & y == 0) by (bit_vector);
    assert(x & y == y ==> (x & !y) | y == x) by (bit_vector);
}

} // verus!

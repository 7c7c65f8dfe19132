//! Byte addresses and word addresses of the 32-bit guest address space.

use vstd::prelude::*;

verus! {

/// Bytes in a machine word.
pub const WORD_SIZE: u32 = 4;

/// The largest word address: the word that holds byte `0xffff_ffff`.
pub const MAX_WORD_ADDR: u32 = 0x3fff_ffff;

/// An address of one byte.
#[derive(Clone, Copy, Debug, PartialEq, Eq, PartialOrd, Ord, Hash, Structural)]
pub struct ByteAddr(pub u32);

/// An address of one aligned word: the byte address divided by the word size.
#[derive(Clone, Copy, Debug, PartialEq, Eq, PartialOrd, Ord, Hash, Structural)]
pub struct WordAddr(pub u32);

impl ByteAddr {
    /// The word that holds this byte.
    pub open spec fn spec_waddr(self) -> WordAddr {
        WordAddr(self.0 / WORD_SIZE)
    }

    /// The position of this byte inside its word, from the low end.
    pub open spec fn spec_subaddr(self) -> u32 {
        self.0 % WORD_SIZE
    }

    /// Whether this byte is the first of its word.
    pub open spec fn spec_is_aligned(self) -> bool {
        self.0 % WORD_SIZE == 0
    }

    /// The word that holds this byte: the address rounded down to a word.
    #[verifier::when_used_as_spec(spec_waddr)]
    pub fn waddr(self) -> (w: WordAddr)
        ensures
            w == self.spec_waddr(),
            w.in_range(),
            w.0 * WORD_SIZE + self.spec_subaddr() == self.0,
    {
        WordAddr(self.0 / WORD_SIZE)
    }

    /// The offset of this byte inside its word, `0` to `3`.
    #[verifier::when_used_as_spec(spec_subaddr)]
    pub fn subaddr(self) -> (off: u32)
        ensures
            off == self.spec_subaddr(),
            off < WORD_SIZE,
    {
        self.0 % WORD_SIZE
    }

    #[verifier::when_used_as_spec(spec_is_aligned)]
    pub fn is_aligned(self) -> (b: bool)
        ensures
            b == self.spec_is_aligned(),
            b <==> self.spec_subaddr() == 0,
    {
        self.0 % WORD_SIZE == 0
    }

    pub fn is_null(self) -> (b: bool)
        ensures
            b <==> self.0 == 0,
    {
        self.0 == 0
    }

    /// `self < other` as addresses.
    pub fn is_below(self, other: ByteAddr) -> (b: bool)
        ensures
            b <==> self.0 < other.0,
    {
        self.0 < other.0
    }

    /// The address `rhs` bytes further on, or `None` where that leaves the
    /// address space.
    pub fn checked_add(self, rhs: u32) -> (r: Option<ByteAddr>)
        ensures
            self.0 + rhs <= u32::MAX ==> r == Some(ByteAddr((self.0 + rhs) as u32)),
            self.0 + rhs > u32::MAX ==> r is None,
    {
        match self.0.checked_add(rhs) {
            Some(a) => Some(ByteAddr(a)),
            None => None,
        }
    }

    /// The address `rhs` bytes further on, held at the last byte of the
    /// address space.
    pub fn saturating_add(self, rhs: u32) -> (r: ByteAddr)
        ensures
            self.0 + rhs <= u32::MAX ==> r.0 == self.0 + rhs,
            self.0 + rhs > u32::MAX ==> r.0 == u32::MAX,
    {
        if rhs <= u32::MAX - self.0 {
            ByteAddr(self.0 + rhs)
        } else {
            ByteAddr(u32::MAX)
        }
    }

    /// The address `rhs` bytes back, held at address zero.
    pub fn saturating_sub(self, rhs: u32) -> (r: ByteAddr)
        ensures
            self.0 >= rhs ==> r.0 == self.0 - rhs,
            self.0 < rhs ==> r.0 == 0,
    {
        if rhs <= self.0 {
            ByteAddr(self.0 - rhs)
        } else {
            ByteAddr(0)
        }
    }
}

impl WordAddr {
    /// Whether this is the address of a word of the 32-bit address space.
    pub open spec fn in_range(self) -> bool {
        self.0 <= MAX_WORD_ADDR
    }

    /// The first byte of this word.
    pub open spec fn spec_baddr(self) -> ByteAddr {
        ByteAddr((self.0 * WORD_SIZE) as u32)
    }

    /// Whether this is the address of a word of the 32-bit address space.
    pub fn is_valid(self) -> (b: bool)
        ensures
            b == self.in_range(),
    {
        self.0 <= MAX_WORD_ADDR
    }

    /// The first byte of this word.
    #[verifier::when_used_as_spec(spec_baddr)]
    pub fn baddr(self) -> (b: ByteAddr)
        requires
            self.in_range(),
        ensures
            b == self.spec_baddr(),
            b.0 == self.0 * WORD_SIZE,
            b.spec_is_aligned(),
            b.spec_waddr() == self,
    {
        ByteAddr(self.0 * WORD_SIZE)
    }

    pub fn is_null(self) -> (b: bool)
        ensures
            b <==> self.0 == 0,
    {
        self.0 == 0
    }

    /// The word `rhs` words further on, or `None` where that leaves the
    /// address space.
    pub fn checked_add(self, rhs: u32) -> (r: Option<WordAddr>)
        ensures
            self.0 + rhs <= MAX_WORD_ADDR ==> r == Some(WordAddr((self.0 + rhs) as u32)),
            self.0 + rhs > MAX_WORD_ADDR ==> r is None,
    {
        if self.0 <= MAX_WORD_ADDR && rhs <= MAX_WORD_ADDR - self.0 {
            Some(WordAddr(self.0 + rhs))
        } else {
            None
        }
    }
}

/// Going from a word to its first byte and back loses nothing.
pub proof fn word_to_byte_is_lossless(w: WordAddr)
    requires
        w.in_range(),
    ensures
        w.spec_baddr().spec_waddr() == w,
        w.spec_baddr().spec_is_aligned(),
        w.spec_baddr().spec_subaddr() == 0,
{
}

/// Going from a byte to its word and back rounds down to the word, by less
/// than a word.
pub proof fn byte_to_word_rounds_down(b: ByteAddr)
    ensures
        b.spec_waddr().in_range(),
        b.spec_waddr().spec_baddr().0 + b.spec_subaddr() == b.0,
        b.spec_waddr().spec_baddr().0 <= b.0 < b.spec_waddr().spec_baddr().0 + WORD_SIZE,
        b.spec_is_aligned() <==> b.spec_waddr().spec_baddr() == b,
{
}

} // verus!

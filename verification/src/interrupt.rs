//! Interrupt kinds and the bit each one owns in the two interrupt registers.

use vstd::prelude::*;

verus! {

/// The top three bits of both interrupt registers always read as set.
pub const UNUSED_INTERRUPT_BITS: u8 = 0b1110_0000;

/// The five interrupt kinds.
#[derive(Clone, Copy, Debug, PartialEq, Eq, Structural)]
pub enum Interrupt {
    VBlank,
    LCDStat,
    Timer,
    Serial,
    Joypad,
}

impl Interrupt {
    /// Bit index of this kind in the interrupt registers.
    pub open spec fn index(self) -> u8 {
        match self {
            Interrupt::VBlank => 0,
            Interrupt::LCDStat => 1,
            Interrupt::Timer => 2,
            Interrupt::Serial => 3,
            Interrupt::Joypad => 4,
        }
    }

    /// The byte with only this kind's bit set.
    pub open spec fn mask(self) -> u8 {
        1u8 << self.index()
    }

    /// Whether this kind's bit is set in `byte`.
    pub open spec fn is_set(self, byte: u8) -> bool {
        byte & self.mask() != 0
    }

    /// `byte` with this kind's bit set to `value` and every other bit kept.
    pub open spec fn updated(self, byte: u8, value: bool) -> u8 {
        if value {
            byte | self.mask()
        } else {
            byte & !self.mask()
        }
    }

    /// Computes [`Interrupt::mask`].
    pub fn bit_mask(self) -> (mask: u8)
        ensures
            mask == self.mask(),
            mask & UNUSED_INTERRUPT_BITS == 0,
            mask != 0,
    {
        proof {
            assert(1u8 << 0u8 == 1u8) by (bit_vector);
            assert(1u8 << 1u8 == 2u8) by (bit_vector);
            assert(1u8 << 2u8 == 4u8) by (bit_vector);
            assert(1u8 << 3u8 == 8u8) by (bit_vector);
            assert(1u8 << 4u8 == 16u8) by (bit_vector);
            assert(1u8 & 0xE0u8 == 0 && 2u8 & 0xE0u8 == 0 && 4u8 & 0xE0u8 == 0 && 8u8 & 0xE0u8
                == 0 && 16u8 & 0xE0u8 == 0) by (bit_vector);
        }
        match self {
            Interrupt::VBlank => 0b0000_0001,
            Interrupt::LCDStat => 0b0000_0010,
            Interrupt::Timer => 0b0000_0100,
            Interrupt::Serial => 0b0000_1000,
            Interrupt::Joypad => 0b0001_0000,
        }
    }

    /// Tests this kind's bit in `byte`.
    pub fn get(self, byte: u8) -> (set: bool)
        ensures
            set == self.is_set(byte),
    {
        byte & self.bit_mask() != 0
    }

    /// Returns `byte` with this kind's bit set or cleared.
    pub fn set(self, byte: u8, value: bool) -> (result: u8)
        ensures
            result == self.updated(byte, value),
            self.is_set(result) == value,
            forall|other: Interrupt| other != self ==> other.is_set(result) == other.is_set(byte),
            result & UNUSED_INTERRUPT_BITS == byte & UNUSED_INTERRUPT_BITS,
    {
        let mask: u8 = self.bit_mask();
        proof {
            lemma_updated_bits(byte, mask, value);
            assert forall|other: Interrupt| other != self implies other.is_set(
                self.updated(byte, value),
            ) == other.is_set(byte) by {
                lemma_masks_disjoint(self, other);
                lemma_updated_other(byte, mask, other.mask(), value);
            }
        }
        if value {
            byte | mask
        } else {
            byte & !mask
        }
    }
}

/// Setting or clearing the bits of `mask` decides exactly those bits.
pub proof fn lemma_updated_bits(byte: u8, mask: u8, value: bool)
    requires
        mask != 0,
        mask & UNUSED_INTERRUPT_BITS == 0,
    ensures
        value ==> (byte | mask) & mask != 0,
        !value ==> (byte & !mask) & mask == 0,
        (byte | mask) & UNUSED_INTERRUPT_BITS == byte & UNUSED_INTERRUPT_BITS,
        (byte & !mask) & UNUSED_INTERRUPT_BITS == byte & UNUSED_INTERRUPT_BITS,
{
    assert(mask != 0 ==> (byte | mask) & mask != 0) by (bit_vector);
    assert((byte & !mask) & mask == 0) by (bit_vector);
    assert(mask & 0xE0u8 == 0 ==> (byte | mask) & 0xE0u8 == byte & 0xE0u8) by (bit_vector);
    assert(mask & 0xE0u8 == 0 ==> (byte & !mask) & 0xE0u8 == byte & 0xE0u8) by (bit_vector);
}

/// Bits outside `mask` are untouched by setting or clearing `mask`.
pub proof fn lemma_updated_other(byte: u8, mask: u8, other: u8, value: bool)
    requires
        mask & other == 0,
    ensures
        (byte | mask) & other == byte & other,
        (byte & !mask) & other == byte & other,
{
    assert(mask & other == 0 ==> (byte | mask) & other == byte & other) by (bit_vector);
    assert(mask & other == 0 ==> (byte & !mask) & other == byte & other) by (bit_vector);
}

/// Two different kinds own different bits.
pub proof fn lemma_masks_disjoint(a: Interrupt, b: Interrupt)
    requires
        a != b,
    ensures
        a.mask() & b.mask() == 0,
{
    assert(forall|i: u8, j: u8| i < 8 && j < 8 && i != j ==> (1u8 << i) & (1u8 << j) == 0)
        by (bit_vector);
}

} // verus!

//! The 6502 status register: six logical flags packed into one byte.
//!
//! Bit layout (bit 0 is the least significant):
//! bit 0 Carry, bit 1 Zero, bit 2 Interrupt-disable, bit 3 Decimal,
//! bits 4-5 unused (held at 1), bit 6 Overflow, bit 7 Negative.

use vstd::prelude::*;

verus! {

/// Reads the Carry bit (bit 0) of a flag byte.
pub open spec fn carry_bit(f: u8) -> u8 {
    (f >> 0) & 1
}

/// Reads the Zero bit (bit 1) of a flag byte.
pub open spec fn zero_bit(f: u8) -> u8 {
    (f >> 1) & 1
}

/// Reads the Interrupt-disable bit (bit 2) of a flag byte.
pub open spec fn interrupt_bit(f: u8) -> u8 {
    (f >> 2) & 1
}

/// Reads the Decimal bit (bit 3) of a flag byte.
pub open spec fn decimal_bit(f: u8) -> u8 {
    (f >> 3) & 1
}

/// Reads the Overflow bit (bit 6) of a flag byte.
pub open spec fn overflow_bit(f: u8) -> u8 {
    (f >> 6) & 1
}

/// Reads the Negative bit (bit 7) of a flag byte.
pub open spec fn negative_bit(f: u8) -> u8 {
    (f >> 7) & 1
}

/// The flag byte after the composite Zero/Negative update that nearly every
/// data-producing instruction performs: Zero is set iff `result == 0`,
/// Negative is set iff bit 7 of `result` is 1, and no other bit changes.
pub open spec fn update_zn(f: u8, result: u8) -> u8 {
    let f1 = if result == 0 {
        f | 0b0000_0010
    } else {
        f & 0b1111_1101
    };
    if result & 0b1000_0000 != 0 {
        f1 | 0b1000_0000
    } else {
        f1 & 0b0111_1111
    }
}

/// `update_zn` sets Zero iff the result is 0 and Negative iff bit 7 of the
/// result is 1, and it leaves every other flag bit as it was.
pub proof fn lemma_update_zn_bits(f: u8, result: u8)
    ensures
        zero_bit(update_zn(f, result)) == (if result == 0 { 1u8 } else { 0u8 }),
        negative_bit(update_zn(f, result)) == (if result & 0b1000_0000 != 0 { 1u8 } else { 0u8 }),
        carry_bit(update_zn(f, result)) == carry_bit(f),
        interrupt_bit(update_zn(f, result)) == interrupt_bit(f),
        decimal_bit(update_zn(f, result)) == decimal_bit(f),
        overflow_bit(update_zn(f, result)) == overflow_bit(f),
{
    assert(zero_bit(update_zn(f, result)) == (if result == 0 { 1u8 } else { 0u8 })
        && negative_bit(update_zn(f, result)) == (if result & 0b1000_0000 != 0 { 1u8 } else { 0u8 })
        && carry_bit(update_zn(f, result)) == carry_bit(f)
        && interrupt_bit(update_zn(f, result)) == interrupt_bit(f)
        && decimal_bit(update_zn(f, result)) == decimal_bit(f)
        && overflow_bit(update_zn(f, result)) == overflow_bit(f)) by (bit_vector);
}

/// The two unused bits (4 and 5) of a flag byte are set, as the
/// hardware keeps them.
pub open spec fn unused_bits_set(f: u8) -> bool {
    f & 0b0011_0000 == 0b0011_0000
}

/// The status-flag register, stored exactly as the hardware packs it.
/// Construction leaves the two unused bits (4 and 5) set to 1 and every
/// logical flag clear.
#[derive(Debug, Clone, Copy, PartialEq, Eq, Structural)]
pub struct Processor {
    pub flags: u8,
}

impl Processor {
    pub fn new() -> (r: Self)
        ensures
            r.flags == 0b0011_0000u8,
    {
        let flags: u8 = 0b0011_0000;

        return Self { flags };
    }

    pub fn carry(&self) -> (r: u8)
        ensures
            r == carry_bit(self.flags),
    {
        return self.flags >> 0 & 1;
    }

    pub fn zero(&self) -> (r: u8)
        ensures
            r == zero_bit(self.flags),
    {
        return self.flags >> 1 & 1;
    }

    pub fn interrupt(&self) -> (r: u8)
        ensures
            r == interrupt_bit(self.flags),
    {
        return self.flags >> 2 & 1;
    }

    pub fn decimal(&self) -> (r: u8)
        ensures
            r == decimal_bit(self.flags),
    {
        return self.flags >> 3 & 1;
    }

    pub fn overflow(&self) -> (r: u8)
        ensures
            r == overflow_bit(self.flags),
    {
        return self.flags >> 6 & 1;
    }

    pub fn negative(&self) -> (r: u8)
        ensures
            r == negative_bit(self.flags),
    {
        return self.flags >> 7 & 1;
    }

    pub fn set_carry(&mut self)
        ensures
            final(self).flags == old(self).flags | 0b0000_0001u8,
    {
        self.flags = self.flags | 0b0000_0001;
    }

    pub fn set_zero(&mut self)
        ensures
            final(self).flags == old(self).flags | 0b0000_0010u8,
    {
        self.flags = self.flags | 0b0000_0010;
    }

    pub fn set_interrupt(&mut self)
        ensures
            final(self).flags == old(self).flags | 0b0000_0100u8,
    {
        self.flags = self.flags | 0b0000_0100;
    }

    pub fn set_decimal(&mut self)
        ensures
            final(self).flags == old(self).flags | 0b0000_1000u8,
    {
        self.flags = self.flags | 0b0000_1000;
    }

    pub fn set_overflow(&mut self)
        ensures
            final(self).flags == old(self).flags | 0b0100_0000u8,
    {
        self.flags = self.flags | 0b0100_0000;
    }

    pub fn set_negative(&mut self)
        ensures
            final(self).flags == old(self).flags | 0b1000_0000u8,
    {
        self.flags = self.flags | 0b1000_0000;
    }

    pub fn clear_carry(&mut self)
        ensures
            final(self).flags == old(self).flags & 0b1111_1110u8,
    {
        self.flags = self.flags & 0b1111_1110;
    }

    pub fn clear_zero(&mut self)
        ensures
            final(self).flags == old(self).flags & 0b1111_1101u8,
    {
        self.flags = self.flags & 0b1111_1101;
    }

    pub fn clear_interrupt(&mut self)
        ensures
            final(self).flags == old(self).flags & 0b1111_1011u8,
    {
        self.flags = self.flags & 0b1111_1011;
    }

    pub fn clear_decimal(&mut self)
        ensures
            final(self).flags == old(self).flags & 0b1111_0111u8,
    {
        self.flags = self.flags & 0b1111_0111;
    }

    pub fn clear_overflow(&mut self)
        ensures
            final(self).flags == old(self).flags & 0b1011_1111u8,
    {
        self.flags = self.flags & 0b1011_1111;
    }

    pub fn clear_negative(&mut self)
        ensures
            final(self).flags == old(self).flags & 0b0111_1111u8,
    {
        self.flags = self.flags & 0b0111_1111;
    }
}

} // verus!

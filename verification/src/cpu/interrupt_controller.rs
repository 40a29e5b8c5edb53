use vstd::prelude::*;
use crate::cpu::Interrupt;
use crate::memory::memory_addresses::{INTERRUPT_ENABLE_ADDRESS, INTERRUPT_FLAG_ADDRESS};
use crate::memory::MemoryDevice;

verus! {

/// The byte with the bits of `mask` set or cleared.
pub open spec fn with_bits(byte: u8, mask: u8, value: bool) -> u8 {
    if value {
        byte | mask
    } else {
        byte & !mask
    }
}

/// The interrupt of the highest priority among those whose bit is set in `bits`.
pub open spec fn highest_priority(bits: u8) -> Option<Interrupt> {
    if bits & 0x01 != 0 {
        Some(Interrupt::VBlank)
    } else if bits & 0x02 != 0 {
        Some(Interrupt::LcdStat)
    } else if bits & 0x04 != 0 {
        Some(Interrupt::Timer)
    } else if bits & 0x08 != 0 {
        Some(Interrupt::Serial)
    } else if bits & 0x10 != 0 {
        Some(Interrupt::Joypad)
    } else {
        None
    }
}

/// The interrupt that is serviced next: the first, in the order of priority,
/// that is both requested and enabled.
pub open spec fn pending_interrupt<T: MemoryDevice>(memory: T) -> Option<Interrupt> {
    highest_priority(
        memory.spec_read(INTERRUPT_FLAG_ADDRESS) & memory.spec_read(INTERRUPT_ENABLE_ADDRESS),
    )
}

/// The interrupt controller keeps no state of its own: the request flags and
/// the enable mask are bytes of the memory device.
pub trait InterruptController: MemoryDevice {
    /// Whether an interrupt is requested.
    fn read_interrupt_flag(&self, interrupt: Interrupt) -> (value: bool)
        ensures
            value == (self.spec_read(INTERRUPT_FLAG_ADDRESS) & interrupt.spec_mask() != 0),
    {
        self.read(INTERRUPT_FLAG_ADDRESS) & interrupt.mask() != 0
    }

    /// Set or clear the request of an interrupt.
    fn write_interrupt_flag(&mut self, interrupt: Interrupt, value: bool)
        ensures
            *final(self) == old(self).spec_write(
                INTERRUPT_FLAG_ADDRESS,
                with_bits(old(self).spec_read(INTERRUPT_FLAG_ADDRESS), interrupt.spec_mask(), value),
            ),
    {
        let flags = self.read(INTERRUPT_FLAG_ADDRESS);
        let mask = interrupt.mask();
        self.write(
            INTERRUPT_FLAG_ADDRESS,
            if value {
                flags | mask
            } else {
                flags & !mask
            },
        );
    }

    /// Whether an interrupt is enabled.
    fn read_interrupt_enable(&self, interrupt: Interrupt) -> (value: bool)
        ensures
            value == (self.spec_read(INTERRUPT_ENABLE_ADDRESS) & interrupt.spec_mask() != 0),
    {
        self.read(INTERRUPT_ENABLE_ADDRESS) & interrupt.mask() != 0
    }

    /// Enable or disable an interrupt.
    fn write_interrupt_enable(&mut self, interrupt: Interrupt, value: bool)
        ensures
            *final(self) == old(self).spec_write(
                INTERRUPT_ENABLE_ADDRESS,
                with_bits(
                    old(self).spec_read(INTERRUPT_ENABLE_ADDRESS),
                    interrupt.spec_mask(),
                    value,
                ),
            ),
    {
        let enabled = self.read(INTERRUPT_ENABLE_ADDRESS);
        let mask = interrupt.mask();
        self.write(
            INTERRUPT_ENABLE_ADDRESS,
            if value {
                enabled | mask
            } else {
                enabled & !mask
            },
        );
    }

    /// Request an interrupt.
    fn request(&mut self, interrupt: Interrupt)
        ensures
            *final(self) == old(self).spec_write(
                INTERRUPT_FLAG_ADDRESS,
                old(self).spec_read(INTERRUPT_FLAG_ADDRESS) | interrupt.spec_mask(),
            ),
    {
        self.write_interrupt_flag(interrupt, true);
    }

    /// The interrupt that is serviced next, if there is one: the first, in
    /// the order of priority, that is both requested and enabled.
    fn pending(&self) -> (interrupt: Option<Interrupt>)
        ensures
            interrupt == pending_interrupt(*self),
    {
        let bits = self.read(INTERRUPT_FLAG_ADDRESS) & self.read(INTERRUPT_ENABLE_ADDRESS);
        if bits & 0x01 != 0 {
            Some(Interrupt::VBlank)
        } else if bits & 0x02 != 0 {
            Some(Interrupt::LcdStat)
        } else if bits & 0x04 != 0 {
            Some(Interrupt::Timer)
        } else if bits & 0x08 != 0 {
            Some(Interrupt::Serial)
        } else if bits & 0x10 != 0 {
            Some(Interrupt::Joypad)
        } else {
            None
        }
    }
}

impl<T: MemoryDevice> InterruptController for T {

}

/// An interrupt is pending exactly if one of the five sources is both
/// requested and enabled; the three high bits of the two bytes play no part.
pub proof fn lemma_pending_ignores_high_bits(bits: u8)
    ensures
        highest_priority(bits) == highest_priority(bits & 0x1F),
        highest_priority(bits) is Some <==> bits & 0x1F != 0,
{
    assert((bits & 0x1F) & 0x01 == bits & 0x01) by (bit_vector);
    assert((bits & 0x1F) & 0x02 == bits & 0x02) by (bit_vector);
    assert((bits & 0x1F) & 0x04 == bits & 0x04) by (bit_vector);
    assert((bits & 0x1F) & 0x08 == bits & 0x08) by (bit_vector);
    assert((bits & 0x1F) & 0x10 == bits & 0x10) by (bit_vector);
    assert(bits & 0x1F != 0 <==> (bits & 0x01 != 0 || bits & 0x02 != 0 || bits & 0x04 != 0 || bits
        & 0x08 != 0 || bits & 0x10 != 0)) by (bit_vector);
}

/// The interrupt that is pending is requested and enabled, and no interrupt
/// of a higher priority is.
pub proof fn lemma_pending_is_first(bits: u8, interrupt: Interrupt, other: Interrupt)
    requires
        highest_priority(bits) == Some(interrupt),
    ensures
        bits & interrupt.spec_mask() != 0,
        other.spec_index() < interrupt.spec_index() ==> bits & other.spec_mask() == 0,
{
}

/// The interrupt controller only ever changes the five low bits of the
/// request flags and of the enable mask: the bit of every interrupt lies
/// among them, and setting or clearing it leaves bits 5 to 7 as they were.
pub proof fn lemma_controller_keeps_high_bits(byte: u8, interrupt: Interrupt, value: bool)
    ensures
        interrupt.spec_mask() & 0xE0 == 0,
        with_bits(byte, interrupt.spec_mask(), value) & 0xE0 == byte & 0xE0,
        with_bits(byte, interrupt.spec_mask(), value) & interrupt.spec_mask() != 0 <==> value,
{
    let mask = interrupt.spec_mask();
    assert(mask == 0x01 || mask == 0x02 || mask == 0x04 || mask == 0x08 || mask == 0x10);
    assert(mask & 0xE0 == 0 && (byte | mask) & 0xE0 == byte & 0xE0 && (byte & !mask) & 0xE0 == byte
        & 0xE0 && (byte | mask) & mask != 0 && (byte & !mask) & mask == 0) by (bit_vector)
        requires
            mask == 0x01 || mask == 0x02 || mask == 0x04 || mask == 0x08 || mask == 0x10,
    ;
}

} // verus!

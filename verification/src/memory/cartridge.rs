use vstd::prelude::*;
use crate::memory::memory_addresses::CARTRIDGE_END_ADDRESS;
use crate::memory::Memory;

verus! {

/// The cartridge with its memory bank controller.
///
/// The controller takes the writes to the cartridge's address range; none of
/// them changes a byte that the processor can read.
#[derive(Debug, Clone, Copy)]
pub struct Cartridge {
    /// The first 32 KiB of the ROM, which the processor reads from address 0.
    pub rom: [u8; 32768],
    /// The ROM bank that was selected last.
    pub rom_bank: u8,
    /// Whether the RAM of the cartridge is enabled.
    pub ram_enabled: bool,
}

impl Cartridge {
    /// Whether the cartridge handles writes to an address itself.
    pub open spec fn claims(address: u16) -> bool {
        address < CARTRIDGE_END_ADDRESS
    }

    /// The cartridge after a write to an address.
    ///
    /// A write below 0x2000 enables the cartridge RAM if the low four bits of
    /// the value are 0xA and disables it otherwise. A write from 0x2000 to
    /// 0x3FFF selects the ROM bank named by the low five bits, where bank 0
    /// stands for bank 1. Other writes are taken and change nothing.
    pub open spec fn spec_write(self, address: u16, value: u8) -> Cartridge {
        if address < 0x2000 {
            Cartridge { ram_enabled: value & 0x0F == 0x0A, ..self }
        } else if address < 0x4000 {
            Cartridge { rom_bank: if value & 0x1F == 0 { 1 } else { value & 0x1F }, ..self }
        } else {
            self
        }
    }

    /// The cartridge whose ROM holds zero everywhere, with ROM bank 1
    /// selected and its RAM disabled.
    pub open spec fn empty() -> Cartridge {
        Cartridge {
            rom: vstd::array::spec_array_fill_for_copy_type(0u8),
            rom_bank: 1,
            ram_enabled: false,
        }
    }

    /// Whether the first 32 KiB of a memory hold the ROM of the cartridge.
    pub open spec fn placed_in(self, memory: Memory) -> bool {
        forall|address: u16|
            address < CARTRIDGE_END_ADDRESS ==> #[trigger] memory.byte(address)
                == self.rom@[address as int]
    }

    /// A cartridge whose ROM holds zero everywhere, with ROM bank 1 selected
    /// and its RAM disabled.
    pub fn new() -> (cartridge: Cartridge)
        ensures
            cartridge == Cartridge::empty(),
            forall|index: int| 0 <= index < 32768 ==> cartridge.rom@[index] == 0,
    {
        Cartridge { rom: [0u8;32768], rom_bank: 1, ram_enabled: false }
    }

    /// A cartridge with the given ROM, as far as it fits into 32 KiB, and
    /// zero behind it; ROM bank 1 is selected and the RAM is disabled.
    pub fn new_with_rom(rom: &[u8]) -> (cartridge: Cartridge)
        ensures
            cartridge.rom_bank == 1,
            !cartridge.ram_enabled,
            forall|index: int|
                0 <= index < 32768 ==> #[trigger] cartridge.rom@[index] == if index < rom@.len() {
                    rom@[index]
                } else {
                    0
                },
    {
        let mut cartridge = Cartridge::new();
        let mut index: usize = 0;
        while index < rom.len() && index < 32768
            invariant
                index <= 32768,
                index <= rom@.len(),
                cartridge.rom_bank == 1,
                !cartridge.ram_enabled,
                forall|i: int|
                    0 <= i < 32768 ==> #[trigger] cartridge.rom@[i] == if i < index {
                        rom@[i]
                    } else {
                        0
                    },
            decreases 32768 - index,
        {
            cartridge.rom[index] = rom[index];
            index = index + 1;
        }
        cartridge
    }

    /// Copy the ROM of the cartridge to the first 32 KiB of a memory. The
    /// rest of the memory stays as it is.
    pub fn place_into_memory(&self, memory: &mut Memory)
        ensures
            self.placed_in(*final(memory)),
            forall|address: u16|
                address >= CARTRIDGE_END_ADDRESS ==> #[trigger] final(memory).byte(address) == old(
                    memory,
                ).byte(address),
    {
        let mut address: u16 = 0;
        while address < CARTRIDGE_END_ADDRESS
            invariant
                address <= CARTRIDGE_END_ADDRESS,
                forall|a: u16| a < address ==> #[trigger] memory.byte(a) == self.rom@[a as int],
                forall|a: u16| a >= address ==> #[trigger] memory.byte(a) == old(memory).byte(a),
            decreases CARTRIDGE_END_ADDRESS - address,
        {
            let ghost before = *memory;
            memory.set(address, self.rom[address as usize]);
            proof {
                assert forall|a: u16| a < address + 1 implies #[trigger] memory.byte(a)
                    == self.rom@[a as int] by {
                    crate::memory::lemma_with_byte(before, address, self.rom@[address as int], a);
                }
                assert forall|a: u16| a >= address + 1 implies #[trigger] memory.byte(a) == old(
                    memory,
                ).byte(a) by {
                    crate::memory::lemma_with_byte(before, address, self.rom@[address as int], a);
                }
            }
            address = address + 1;
        }
    }

    /// Offer a write to the cartridge. Returns `Some` if the cartridge has
    /// handled it. The memory is never changed.
    pub fn write(&mut self, memory: &mut Memory, address: u16, value: u8) -> (claimed: Option<()>)
        ensures
            claimed is Some <==> Cartridge::claims(address),
            *final(self) == old(self).spec_write(address, value),
            *final(memory) == *old(memory),
    {
        if address < 0x2000 {
            self.ram_enabled = value & 0x0F == 0x0A;
            Some(())
        } else if address < 0x4000 {
            self.rom_bank = if value & 0x1F == 0 {
                1
            } else {
                value & 0x1F
            };
            Some(())
        } else if address < CARTRIDGE_END_ADDRESS {
            Some(())
        } else {
            None
        }
    }
}

} // verus!

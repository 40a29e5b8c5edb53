use vstd::prelude::*;

verus! {

/// The serial transfer data register (SB).
pub const SERIAL_DATA_ADDRESS: u16 = 0xFF01;

/// The serial transfer control register (SC).
pub const SERIAL_CONTROL_ADDRESS: u16 = 0xFF02;

/// The divider register (DIV).
pub const TIMER_DIVIDER_ADDRESS: u16 = 0xFF04;

/// The timer counter (TIMA).
pub const TIMER_COUNTER_ADDRESS: u16 = 0xFF05;

/// The timer modulo (TMA).
pub const TIMER_MODULO_ADDRESS: u16 = 0xFF06;

/// The timer control register (TAC).
pub const TIMER_CONTROL_ADDRESS: u16 = 0xFF07;

/// The interrupt request flags (IF).
pub const INTERRUPT_FLAG_ADDRESS: u16 = 0xFF0F;

/// The first of the LCD registers (LCDC).
pub const LCD_CONTROL_ADDRESS: u16 = 0xFF40;

/// The LCD status register (STAT).
pub const LCD_STATUS_ADDRESS: u16 = 0xFF41;

/// The line that is currently drawn (LY).
pub const LCD_LINE_ADDRESS: u16 = 0xFF44;

/// The line that LY is compared with (LYC).
pub const LCD_LINE_COMPARE_ADDRESS: u16 = 0xFF45;

/// The last of the LCD registers (WX).
pub const LCD_LAST_ADDRESS: u16 = 0xFF4B;

/// An address that reads as `0xFF` whatever was written to it.
pub const ALWAYS_RETURNS_FF_ADDRESS: u16 = 0xFF4D;

/// The interrupt enable mask (IE).
pub const INTERRUPT_ENABLE_ADDRESS: u16 = 0xFFFF;

/// The first address that the cartridge does not own.
pub const CARTRIDGE_END_ADDRESS: u16 = 0x8000;

/// The first address of the tile data in video memory.
pub const TILE_DATA_ADDRESS: u16 = 0x8000;

} // verus!

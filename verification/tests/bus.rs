use rust_gameboy_library::cpu::interrupt_controller::InterruptController;
use rust_gameboy_library::cpu::Interrupt;
use rust_gameboy_library::debug_memory::DebugMemory;
use rust_gameboy_library::memory::cartridge::Cartridge;
use rust_gameboy_library::memory::memory_addresses::{
    ALWAYS_RETURNS_FF_ADDRESS, INTERRUPT_ENABLE_ADDRESS, INTERRUPT_FLAG_ADDRESS,
    LCD_LINE_ADDRESS, LCD_LINE_COMPARE_ADDRESS, LCD_STATUS_ADDRESS, SERIAL_CONTROL_ADDRESS,
    SERIAL_DATA_ADDRESS, TIMER_CONTROL_ADDRESS, TIMER_COUNTER_ADDRESS, TIMER_DIVIDER_ADDRESS,
    TIMER_MODULO_ADDRESS,
};
use rust_gameboy_library::memory::serial::{LoggerSerialConnection, SerialConnection};
use rust_gameboy_library::memory::video::{DisplayConnection, DummyDisplayConnection};
use rust_gameboy_library::memory::{
    signed_byte, unsigned_byte, Memory, MemoryController, MemoryDevice,
};
use rust_gameboy_library::video::{Tile, VideoFeatures};

fn is_claimed(address: u16) -> bool {
    address < 0x8000
        || (0xFF01..=0xFF02).contains(&address)
        || (0xFF04..=0xFF07).contains(&address)
        || (0xFF40..=0xFF4B).contains(&address)
}

#[test]
fn an_unclaimed_address_reads_what_was_written() {
    let mut memory = MemoryController::new();
    for address in 0..=65535u16 {
        if is_claimed(address) {
            continue;
        }
        let value = (address % 251) as u8 + 1;
        memory.write(address, value);
        let expected = if address == ALWAYS_RETURNS_FF_ADDRESS { 0xFF } else { value };
        assert_eq!(memory.read(address), expected);
    }
    assert_eq!(memory.read(0xC000), (0xC000u16 % 251) as u8 + 1);
}

#[test]
fn one_address_always_reads_ff() {
    let mut memory = MemoryController::new_for_tests();
    assert_eq!(ALWAYS_RETURNS_FF_ADDRESS, 0xFF4D);
    assert_eq!(memory.read(ALWAYS_RETURNS_FF_ADDRESS), 0xFF);
    memory.write(ALWAYS_RETURNS_FF_ADDRESS, 0x12);
    assert_eq!(memory.read(ALWAYS_RETURNS_FF_ADDRESS), 0xFF);
    assert_eq!(memory.memory.get(ALWAYS_RETURNS_FF_ADDRESS), 0x12);
}

#[test]
fn the_cartridge_keeps_writes_away_from_the_memory() {
    let mut memory = MemoryController::new();
    memory.write(0x0000, 0x0A);
    memory.write(0x2000, 0x05);
    memory.write(0x7FFF, 0x77);
    assert_eq!(memory.read(0x0000), 0);
    assert_eq!(memory.read(0x2000), 0);
    assert_eq!(memory.read(0x7FFF), 0);
    assert_eq!(memory.cartridge.ram_enabled, true);
    assert_eq!(memory.cartridge.rom_bank, 5);
    memory.write(0x2000, 0xE0);
    assert_eq!(memory.cartridge.rom_bank, 1);
    memory.write(0x1FFF, 0x0B);
    assert_eq!(memory.cartridge.ram_enabled, false);
    memory.write(0x8000, 0x42);
    assert_eq!(memory.read(0x8000), 0x42);
}

#[test]
fn test_mode_commits_every_write_before_the_peripherals_see_it() {
    let mut memory = MemoryController::new_for_tests();
    memory.write(0x1234, 0x56);
    assert_eq!(memory.read(0x1234), 0x56);
    memory.write(LCD_LINE_ADDRESS, 0x99);
    assert_eq!(memory.read(LCD_LINE_ADDRESS), 0x99);
    memory.write(TIMER_DIVIDER_ADDRESS, 0x99);
    assert_eq!(memory.read(TIMER_DIVIDER_ADDRESS), 0);

    let mut memory = MemoryController::new();
    memory.write(LCD_LINE_ADDRESS, 0x99);
    assert_eq!(memory.read(LCD_LINE_ADDRESS), 0);
    memory.write(LCD_LINE_COMPARE_ADDRESS, 0x42);
    assert_eq!(memory.read(LCD_LINE_COMPARE_ADDRESS), 0x42);
}

#[test]
fn constructors_differ_only_in_test_mode_and_connections() {
    assert_eq!(MemoryController::new().test_mode, false);
    assert_eq!(MemoryController::new_for_tests().test_mode, true);
    assert_eq!(MemoryController::new_with_init(&[1]).test_mode, true);
    let plain = MemoryController::new_with_connections(Some(LoggerSerialConnection::new()));
    assert_eq!(plain.test_mode, false);
    assert_eq!(plain.read(0), 0);
    let wired = MemoryController::new_with_video_connections(
        None::<LoggerSerialConnection>,
        DummyDisplayConnection {},
    );
    assert_eq!(wired.test_mode, false);
    assert!(wired.serial.connection.is_none());
    assert_eq!(wired.timer.divider_cycles, 0);
    assert_eq!(wired.graphics.line, 0);
    assert_eq!(wired.cartridge.rom_bank, 1);
    assert_eq!(wired.read(0xFFFF), 0);
}

#[test]
fn an_initial_image_longer_than_the_memory_is_cut() {
    let image = vec![0xABu8; 70000];
    let memory = MemoryController::new_with_init(&image);
    assert_eq!(memory.read(0), 0xAB);
    assert_eq!(memory.read(0xFFFF), 0xAB);
    let empty = DebugMemory::new_with_init(&[]);
    assert_eq!(empty.read(0), 0);
}

#[test]
fn signed_reads_and_writes_reinterpret_the_byte() {
    let mut memory = DebugMemory::new();
    memory.write(10, 0xFF);
    assert_eq!(memory.read_signed(10), -1);
    memory.write(10, 0x80);
    assert_eq!(memory.read_signed(10), -128);
    memory.write(10, 0x7F);
    assert_eq!(memory.read_signed(10), 127);
    memory.write_signed(11, -2);
    assert_eq!(memory.read(11), 0xFE);
    memory.write_signed(11, 5);
    assert_eq!(memory.read(11), 5);
    for value in 0..=255u8 {
        assert_eq!(unsigned_byte(signed_byte(value)), value);
        assert_eq!(signed_byte(value), value as i8);
    }
}

#[test]
fn the_divider_counts_every_64_cycles_and_resets_on_a_write() {
    let mut memory = MemoryController::new();
    for _ in 0..63 {
        memory.process_cycle();
    }
    assert_eq!(memory.read(TIMER_DIVIDER_ADDRESS), 0);
    memory.process_cycle();
    assert_eq!(memory.read(TIMER_DIVIDER_ADDRESS), 1);
    for _ in 0..64 * 3 {
        memory.process_cycle();
    }
    assert_eq!(memory.read(TIMER_DIVIDER_ADDRESS), 4);
    memory.write(TIMER_DIVIDER_ADDRESS, 0x55);
    assert_eq!(memory.read(TIMER_DIVIDER_ADDRESS), 0);
    for _ in 0..64 * 256 {
        memory.process_cycle();
    }
    assert_eq!(memory.read(TIMER_DIVIDER_ADDRESS), 0);
}

#[test]
fn the_timer_counts_at_the_selected_rate() {
    let periods = [(0u8, 256u32), (1, 4), (2, 16), (3, 64)];
    for (select, period) in periods {
        let mut memory = MemoryController::new();
        memory.write(TIMER_CONTROL_ADDRESS, 0x04 | select);
        for _ in 0..period - 1 {
            memory.process_cycle();
        }
        assert_eq!(memory.read(TIMER_COUNTER_ADDRESS), 0);
        memory.process_cycle();
        assert_eq!(memory.read(TIMER_COUNTER_ADDRESS), 1);
        for _ in 0..period * 9 {
            memory.process_cycle();
        }
        assert_eq!(memory.read(TIMER_COUNTER_ADDRESS), 10);
    }
    let mut memory = MemoryController::new();
    memory.write(TIMER_CONTROL_ADDRESS, 0x01);
    for _ in 0..1000 {
        memory.process_cycle();
    }
    assert_eq!(memory.read(TIMER_COUNTER_ADDRESS), 0);
}

#[test]
fn a_timer_overflow_requests_the_interrupt_in_the_same_cycle() {
    let mut memory = MemoryController::new();
    memory.write(TIMER_MODULO_ADDRESS, 0xF0);
    memory.write(TIMER_COUNTER_ADDRESS, 0xFF);
    memory.write(TIMER_CONTROL_ADDRESS, 0x05);
    for _ in 0..3 {
        memory.process_cycle();
        assert_eq!(memory.read(TIMER_COUNTER_ADDRESS), 0xFF);
        assert_eq!(memory.read_interrupt_flag(Interrupt::Timer), false);
    }
    memory.process_cycle();
    assert_eq!(memory.read(TIMER_COUNTER_ADDRESS), 0xF0);
    assert_eq!(memory.read_interrupt_flag(Interrupt::Timer), true);
    assert_eq!(memory.read(INTERRUPT_FLAG_ADDRESS), 0x04);
}

#[test]
fn a_serial_transfer_completes_after_1024_cycles() {
    let mut memory = MemoryController::new();
    memory.write(SERIAL_DATA_ADDRESS, 0x41);
    memory.write(SERIAL_CONTROL_ADDRESS, 0x81);
    for _ in 0..1023 {
        memory.process_cycle();
    }
    assert_eq!(memory.read(SERIAL_DATA_ADDRESS), 0x41);
    assert_eq!(memory.read(SERIAL_CONTROL_ADDRESS), 0x81);
    assert_eq!(memory.read_interrupt_flag(Interrupt::Serial), false);
    memory.process_cycle();
    assert_eq!(memory.read(SERIAL_DATA_ADDRESS), 0xFF);
    assert_eq!(memory.read(SERIAL_CONTROL_ADDRESS), 0x01);
    assert_eq!(memory.read_interrupt_flag(Interrupt::Serial), true);
    let connection = memory.serial.connection.unwrap();
    assert_eq!(connection.last, Some(0x41));
    assert_eq!(connection.count, 1);
    assert_eq!(memory.serial.remaining_cycles, 0);
}

#[test]
fn a_serial_transfer_needs_the_start_bit_and_the_internal_clock() {
    for control in [0x80u8, 0x01, 0x00, 0x7F] {
        let mut memory = MemoryController::new();
        memory.write(SERIAL_DATA_ADDRESS, 0x41);
        memory.write(SERIAL_CONTROL_ADDRESS, control);
        for _ in 0..2048 {
            memory.process_cycle();
        }
        assert_eq!(memory.read(SERIAL_DATA_ADDRESS), 0x41);
        assert_eq!(memory.read_interrupt_flag(Interrupt::Serial), false);
    }
    let mut memory = MemoryController::new_with_connections(None::<LoggerSerialConnection>);
    memory.write(SERIAL_DATA_ADDRESS, 0x41);
    memory.write(SERIAL_CONTROL_ADDRESS, 0x81);
    for _ in 0..1024 {
        memory.process_cycle();
    }
    assert_eq!(memory.read(SERIAL_DATA_ADDRESS), 0xFF);
    assert_eq!(memory.read_interrupt_flag(Interrupt::Serial), true);
}

#[test]
fn the_logger_connection_answers_ff_and_remembers_the_last_byte() {
    let mut connection = LoggerSerialConnection::new();
    assert_eq!(connection.last, None);
    assert_eq!(connection.exchange(0x12), 0xFF);
    assert_eq!(connection.exchange(0x34), 0xFF);
    assert_eq!(connection.last, Some(0x34));
    assert_eq!(connection.count, 2);
    connection.count = u64::MAX;
    connection.exchange(1);
    assert_eq!(connection.count, u64::MAX);
}

#[test]
fn v_blank_fires_exactly_once_per_frame() {
    let mut memory = MemoryController::new();
    let mut requests = 0;
    for cycle in 1..=17556u32 * 3 {
        memory.process_cycle();
        if memory.read_interrupt_flag(Interrupt::VBlank) {
            requests += 1;
            memory.write_interrupt_flag(Interrupt::VBlank, false);
            assert_eq!(memory.read(LCD_LINE_ADDRESS), 144);
            assert_eq!(cycle % 17556, 144 * 114);
        }
    }
    assert_eq!(requests, 3);
    assert_eq!(memory.graphics.line, 0);
    assert_eq!(memory.graphics.dot, 0);
}

#[test]
fn v_blank_fires_once_in_a_frame_from_any_line() {
    for start in [0u32, 1, 113, 114, 16415, 16416, 17555] {
        let mut memory = MemoryController::new();
        for _ in 0..start {
            memory.process_cycle();
        }
        memory.write_interrupt_flag(Interrupt::VBlank, false);
        let mut requests = 0;
        for _ in 0..17556 {
            memory.process_cycle();
            if memory.read_interrupt_flag(Interrupt::VBlank) {
                requests += 1;
                memory.write_interrupt_flag(Interrupt::VBlank, false);
            }
        }
        assert_eq!(requests, 1);
    }
}

#[test]
fn the_line_register_follows_the_display() {
    let mut memory = MemoryController::new();
    for _ in 0..113 {
        memory.process_cycle();
    }
    assert_eq!(memory.read(LCD_LINE_ADDRESS), 0);
    memory.process_cycle();
    assert_eq!(memory.read(LCD_LINE_ADDRESS), 1);
    for _ in 0..114 * 152 {
        memory.process_cycle();
    }
    assert_eq!(memory.read(LCD_LINE_ADDRESS), 153);
    for _ in 0..114 {
        memory.process_cycle();
    }
    assert_eq!(memory.read(LCD_LINE_ADDRESS), 0);
}

#[test]
fn the_line_compare_requests_lcd_stat_when_selected() {
    let mut memory = MemoryController::new();
    memory.write(LCD_LINE_COMPARE_ADDRESS, 2);
    memory.write(LCD_STATUS_ADDRESS, 0x40);
    for _ in 0..114 * 2 - 1 {
        memory.process_cycle();
    }
    assert_eq!(memory.read_interrupt_flag(Interrupt::LcdStat), false);
    memory.process_cycle();
    assert_eq!(memory.read_interrupt_flag(Interrupt::LcdStat), true);
    assert_eq!(memory.read(INTERRUPT_FLAG_ADDRESS), 0x02);

    let mut memory = MemoryController::new();
    memory.write(LCD_LINE_COMPARE_ADDRESS, 2);
    for _ in 0..114 * 154 {
        memory.process_cycle();
    }
    assert_eq!(memory.read_interrupt_flag(Interrupt::LcdStat), false);
}

#[test]
fn the_dummy_display_takes_every_frame() {
    let mut display = DummyDisplayConnection {};
    let memory = Memory::new();
    display.present(&memory);
    assert_eq!(display, DummyDisplayConnection {});
}

#[test]
fn interrupt_requests_and_enables_are_bits_in_memory() {
    let mut memory = DebugMemory::new();
    memory.request(Interrupt::Timer);
    assert_eq!(memory.read(INTERRUPT_FLAG_ADDRESS), 0x04);
    memory.write_interrupt_flag(Interrupt::Joypad, true);
    assert_eq!(memory.read(INTERRUPT_FLAG_ADDRESS), 0x14);
    memory.write_interrupt_flag(Interrupt::Timer, false);
    assert_eq!(memory.read(INTERRUPT_FLAG_ADDRESS), 0x10);
    memory.write_interrupt_enable(Interrupt::Serial, true);
    assert_eq!(memory.read(INTERRUPT_ENABLE_ADDRESS), 0x08);
    assert_eq!(memory.read_interrupt_enable(Interrupt::Serial), true);
    assert_eq!(memory.read_interrupt_enable(Interrupt::Joypad), false);
    assert_eq!(memory.read_interrupt_flag(Interrupt::Joypad), true);
    memory.write(INTERRUPT_FLAG_ADDRESS, 0xE0);
    memory.request(Interrupt::VBlank);
    assert_eq!(memory.read(INTERRUPT_FLAG_ADDRESS), 0xE1);
}

#[test]
fn the_pending_interrupt_is_the_first_requested_and_enabled() {
    let mut memory = MemoryController::new();
    assert_eq!(memory.pending(), None);
    memory.write(INTERRUPT_FLAG_ADDRESS, 0x1F);
    assert_eq!(memory.pending(), None);
    memory.write(INTERRUPT_ENABLE_ADDRESS, 0x18);
    assert_eq!(memory.pending(), Some(Interrupt::Serial));
    memory.write(INTERRUPT_ENABLE_ADDRESS, 0x1F);
    assert_eq!(memory.pending(), Some(Interrupt::VBlank));
    memory.write(INTERRUPT_FLAG_ADDRESS, 0x16);
    assert_eq!(memory.pending(), Some(Interrupt::LcdStat));
    memory.write(INTERRUPT_FLAG_ADDRESS, 0x14);
    assert_eq!(memory.pending(), Some(Interrupt::Timer));
    memory.write(INTERRUPT_FLAG_ADDRESS, 0x10);
    assert_eq!(memory.pending(), Some(Interrupt::Joypad));
    memory.write(INTERRUPT_FLAG_ADDRESS, 0xE0);
    memory.write(INTERRUPT_ENABLE_ADDRESS, 0xFF);
    assert_eq!(memory.pending(), None);
}

#[test]
fn tile_data_is_read_from_video_memory() {
    let mut memory = Memory::new();
    for offset in 0..4096u16 {
        memory.set(0x8000 + offset, (offset % 256) as u8 ^ (offset / 256) as u8);
    }
    let tiles = memory.get_tile_data();
    assert_eq!(tiles.len(), 256);
    for tile in 0..256usize {
        for byte in 0..16usize {
            let offset = (16 * tile + byte) as u16;
            assert_eq!(tiles[tile].data[byte], (offset % 256) as u8 ^ (offset / 256) as u8);
        }
    }
}

#[test]
fn tile_pixels_take_their_low_bit_from_the_first_byte() {
    let mut data = [0u8; 16];
    data[0] = 0b1010_0101;
    data[1] = 0b1100_0011;
    data[14] = 0xFF;
    let tile = Tile::new(data);
    let first_row: Vec<u8> = (0..8).map(|x| tile.pixel(x, 0)).collect();
    assert_eq!(first_row, vec![3, 2, 1, 0, 0, 1, 2, 3]);
    for x in 0..8 {
        assert_eq!(tile.pixel(x, 7), 1);
        assert_eq!(tile.pixel(x, 3), 0);
        assert_eq!(tile.pixel(x + 8, 8), tile.pixel(x, 0));
    }
}

#[test]
fn a_cartridge_places_its_rom_into_memory() {
    let cartridge = Cartridge::new_with_rom(&[0x31, 0xFE, 0xFF]);
    assert_eq!(cartridge.rom_bank, 1);
    assert_eq!(cartridge.ram_enabled, false);
    let mut memory = Memory::new();
    memory.set(0x0003, 0x77);
    memory.set(0x8000, 0x55);
    cartridge.place_into_memory(&mut memory);
    assert_eq!(memory.get(0), 0x31);
    assert_eq!(memory.get(1), 0xFE);
    assert_eq!(memory.get(2), 0xFF);
    assert_eq!(memory.get(3), 0);
    assert_eq!(memory.get(0x7FFF), 0);
    assert_eq!(memory.get(0x8000), 0x55);
    let long = vec![0x11u8; 40000];
    let cartridge = Cartridge::new_with_rom(&long);
    assert_eq!(cartridge.rom[32767], 0x11);
}

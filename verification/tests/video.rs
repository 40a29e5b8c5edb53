use rust_gameboy_library::cpu::instruction::Instruction;
use rust_gameboy_library::cpu::{Cpu, CpuState};
use rust_gameboy_library::memory::cartridge::Cartridge;
use rust_gameboy_library::memory::MemoryController;
use rust_gameboy_library::video::VideoFeatures;

#[test]
fn test_cartridge_can_be_placed_in_memory_and_run() {
    let cartridge = Cartridge::new();
    let mut cpu = CpuState::new();
    let mut memory = MemoryController::new_for_tests();
    cartridge.place_into_memory(&mut memory.memory);
    cpu.write_program_counter(0x0100);
    let mut instruction = cpu.load_instruction(&mut memory);
    for _id in 1..1000000000 {
        instruction = instruction.execute(&mut cpu, &mut memory);
    }
    let tiles = memory.memory.get_tile_data();
    assert_eq!(tiles.len(), 256);
}

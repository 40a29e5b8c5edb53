use rust_gameboy_library::memory::{MemoryController, MemoryDevice};

#[test]
fn can_read_written_value() {
    let mut debug_memory = MemoryController::new_for_tests();
    debug_memory.write(0, 99);
    let read_value = debug_memory.read(0);
    assert_eq!(read_value, 99);
}

#[test]
fn reads_zero_in_unused_memory() {
    let debug_memory = MemoryController::new_for_tests();
    assert_eq!(debug_memory.read(0), 0);
    assert_eq!(debug_memory.read(65535), 0);
    assert_eq!(debug_memory.read(10), 0);
    assert_eq!(debug_memory.read(65000), 0);
    assert_eq!(debug_memory.read(30000), 0);
}

#[test]
fn initializing_memory_works() {
    let debug_memory = MemoryController::new_with_init(&[7, 5, 0, 255]);
    assert_eq!(debug_memory.read(0), 7);
    assert_eq!(debug_memory.read(1), 5);
    assert_eq!(debug_memory.read(2), 0);
    assert_eq!(debug_memory.read(3), 255);
    assert_eq!(debug_memory.read(4), 0);
}

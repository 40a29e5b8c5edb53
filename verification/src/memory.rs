use vstd::prelude::*;
use self::cartridge::Cartridge;
use self::memory_addresses::ALWAYS_RETURNS_FF_ADDRESS;
use self::serial::{LoggerSerialConnection, Serial, SerialConnection};
use self::timer::Timer;
use self::video::{DisplayConnection, DummyDisplayConnection, Video};

/// Named memory addresses.
pub mod memory_addresses;

/// The timer.
pub mod timer;

/// The cartridge.
pub mod cartridge;

/// The serial link.
pub mod serial;

/// The display controller.
pub mod video;

verus! {

/// The successor of an address; the address space wraps around at its end.
pub open spec fn next_address(address: u16) -> u16 {
    if address == 0xFFFF {
        0
    } else {
        (address + 1) as u16
    }
}

/// The predecessor of an address; the address space wraps around at its start.
pub open spec fn previous_address(address: u16) -> u16 {
    if address == 0 {
        0xFFFF
    } else {
        (address - 1) as u16
    }
}

/// The signed byte with the same bit pattern as `value`.
pub open spec fn reinterpret_signed(value: u8) -> i8 {
    if value < 128 {
        value as i8
    } else {
        (value - 256) as i8
    }
}

/// The unsigned byte with the same bit pattern as `value`.
pub open spec fn reinterpret_unsigned(value: i8) -> u8 {
    if value >= 0 {
        value as u8
    } else {
        (value + 256) as u8
    }
}

/// The signed byte with the same bit pattern as `value`.
pub fn signed_byte(value: u8) -> (signed: i8)
    ensures
        signed == reinterpret_signed(value),
        reinterpret_unsigned(signed) == value,
{
    if value < 128 {
        value as i8
    } else {
        (value as i16 - 256) as i8
    }
}

/// The unsigned byte with the same bit pattern as `value`.
pub fn unsigned_byte(value: i8) -> (unsigned: u8)
    ensures
        unsigned == reinterpret_unsigned(value),
        reinterpret_signed(unsigned) == value,
{
    if value >= 0 {
        value as u8
    } else {
        (value as i16 + 256) as u8
    }
}

/// Something that can be accessed through 16-bit addresses, one byte at a time.
///
/// `spec_read` and `spec_write` are the mathematical model of the device:
/// what a read returns, and the device after a write.
pub trait MemoryDevice: Sized {
    /// The byte that a read of `address` returns.
    spec fn spec_read(&self, address: u16) -> u8;

    /// The device after `value` was written to `address`.
    spec fn spec_write(&self, address: u16, value: u8) -> Self;

    /// The device after one machine cycle of its peripherals.
    spec fn spec_tick(&self) -> Self;

    /// Read a byte from an address.
    fn read(&self, address: u16) -> (value: u8)
        ensures
            value == self.spec_read(address),
    ;

    /// Write a byte to an address.
    fn write(&mut self, address: u16, value: u8)
        ensures
            *final(self) == old(self).spec_write(address, value),
    ;

    /// Advance the peripherals of the device by one machine cycle.
    fn tick(&mut self)
        ensures
            *final(self) == old(self).spec_tick(),
    ;

    /// Read a signed byte from an address.
    fn read_signed(&self, address: u16) -> (value: i8)
        ensures
            value == reinterpret_signed(self.spec_read(address)),
    {
        signed_byte(self.read(address))
    }

    /// Write a signed byte to an address.
    fn write_signed(&mut self, address: u16, value: i8)
        ensures
            *final(self) == old(self).spec_write(address, reinterpret_unsigned(value)),
    {
        self.write(address, unsigned_byte(value));
    }
}

/// The backing memory: 64 KiB of bytes, one for each address.
pub struct Memory {
    /// The raw memory array.
    pub data: [u8; 65536],
}

impl Memory {
    /// The byte at an address.
    pub open spec fn byte(self, address: u16) -> u8 {
        self.data@[address as int]
    }

    /// The memory with the byte at one address replaced.
    pub open spec fn with_byte(self, address: u16, value: u8) -> Memory {
        Memory { data: vstd::array::spec_array_update(self.data, address as int, value) }
    }

    /// The memory that holds zero at every address.
    pub open spec fn zeroed() -> Memory {
        Memory { data: vstd::array::spec_array_fill_for_copy_type(0u8) }
    }

    /// Create a new memory filled with `0`.
    pub fn new() -> (memory: Memory)
        ensures
            memory == Memory::zeroed(),
            forall|address: u16| memory.byte(address) == 0,
    {
        Memory { data: [0u8; 65536] }
    }

    /// The byte at an address.
    pub fn get(&self, address: u16) -> (value: u8)
        ensures
            value == self.byte(address),
    {
        self.data[address as usize]
    }

    /// Replace the byte at an address.
    pub fn set(&mut self, address: u16, value: u8)
        ensures
            *final(self) == old(self).with_byte(address, value),
    {
        self.data[address as usize] = value;
    }
}

/// A byte that was replaced reads as its new value; every other byte is as it was.
pub proof fn lemma_with_byte(memory: Memory, address: u16, value: u8, other: u16)
    ensures
        memory.with_byte(address, value).byte(address) == value,
        other != address ==> memory.with_byte(address, value).byte(other) == memory.byte(other),
{
}

impl MemoryDevice for Memory {
    open spec fn spec_read(&self, address: u16) -> u8 {
        self.byte(address)
    }

    open spec fn spec_write(&self, address: u16, value: u8) -> Self {
        self.with_byte(address, value)
    }

    /// The backing memory has no peripherals.
    open spec fn spec_tick(&self) -> Self {
        *self
    }

    fn read(&self, address: u16) -> (value: u8) {
        self.get(address)
    }

    fn write(&mut self, address: u16, value: u8) {
        self.set(address, value);
    }

    fn tick(&mut self) {
    }
}

/// The memory bus: the backing memory and the peripherals that take part in
/// writes and in every machine cycle.
pub struct MemoryController<T: SerialConnection, D: DisplayConnection> {
    /// The backing memory.
    pub memory: Memory,
    /// Whether every write also goes to the backing memory before the
    /// peripherals see it.
    pub test_mode: bool,
    /// The timer.
    pub timer: Timer,
    /// The serial link.
    pub serial: Serial<T>,
    /// The cartridge.
    pub cartridge: Cartridge,
    /// The display controller.
    pub graphics: Video<D>,
}

/// Whether a peripheral handles writes to an address itself, so that the
/// value does not fall through to the backing memory.
pub open spec fn claimed(address: u16) -> bool {
    Timer::claims(address) || self::serial::claims(address) || Cartridge::claims(address)
        || self::video::claims(address)
}

/// The first bytes of a fresh memory are those of `init`, the others are zero.
pub open spec fn initialized(memory: Memory, init: Seq<u8>) -> bool {
    forall|address: u16|
        #[trigger] memory.byte(address) == if address < init.len() {
            init[address as int]
        } else {
            0
        }
}

impl Memory {
    /// Create a new memory. `init` is placed at address 0, as far as it
    /// fits; the remaining memory is filled with `0`.
    pub fn new_with_init(init: &[u8]) -> (memory: Memory)
        ensures
            initialized(memory, init@),
    {
        let mut memory = Memory::new();
        let mut index: usize = 0;
        while index < init.len() && index < 65536
            invariant
                index <= 65536,
                index <= init.len(),
                forall|address: u16|
                    #[trigger] memory.byte(address) == if address < index {
                        init@[address as int]
                    } else {
                        0
                    },
            decreases 65536 - index,
        {
            let ghost before = memory;
            memory.set(index as u16, init[index]);
            proof {
                assert forall|address: u16|
                    #[trigger] memory.byte(address) == if address < index + 1 {
                        init@[address as int]
                    } else {
                        0
                    } by {
                    lemma_with_byte(before, index as u16, init@[index as int], address);
                    assert(before.byte(address) == if address < index {
                        init@[address as int]
                    } else {
                        0
                    });
                }
            }
            index = index + 1;
        }
        memory
    }
}

impl<T: SerialConnection, D: DisplayConnection> MemoryController<T, D> {
    /// The memory bus in its state after reset, around a backing memory.
    pub open spec fn assembled(
        memory: Memory,
        test_mode: bool,
        connection: Option<T>,
        display_connection: D,
    ) -> MemoryController<T, D> {
        MemoryController {
            memory,
            test_mode,
            timer: Timer { divider_cycles: 0, counter_cycles: 0 },
            serial: Serial { connection, remaining_cycles: 0 },
            cartridge: Cartridge::empty(),
            graphics: Video { display: display_connection, dot: 0, line: 0 },
        }
    }

    /// The memory bus after one machine cycle: the timer, then the serial
    /// link, then the display controller have each advanced by one cycle.
    pub open spec fn spec_cycle(self) -> MemoryController<T, D> {
        let (timer, after_timer) = self.timer.spec_cycle(self.memory);
        let (serial, after_serial) = self.serial.spec_cycle(after_timer);
        let (graphics, after_graphics) = self.graphics.spec_cycle(after_serial);
        MemoryController { memory: after_graphics, timer, serial, graphics, ..self }
    }

    /// Create a new memory bus filled with `0`, with the given serial
    /// connection and display.
    pub fn new_with_video_connections(connection: Option<T>, display_connection: D) -> (controller:
        MemoryController<T, D>)
        ensures
            controller == Self::assembled(Memory::zeroed(), false, connection, display_connection),
    {
        MemoryController {
            memory: Memory::new(),
            test_mode: false,
            timer: Timer::new(),
            serial: Serial::new(connection),
            cartridge: Cartridge::new(),
            graphics: Video::new(display_connection),
        }
    }

    /// Advance the peripherals by one machine cycle: the timer, then the
    /// serial link, then the display controller.
    pub fn process_cycle(&mut self)
        ensures
            *final(self) == old(self).spec_cycle(),
    {
        self.timer.cycle(&mut self.memory);
        self.serial.cycle(&mut self.memory);
        self.graphics.cycle(&mut self.memory);
    }
}

impl<T: SerialConnection> MemoryController<T, DummyDisplayConnection> {
    /// Create a new memory bus filled with `0`, with the given serial
    /// connection and a display that discards every frame.
    pub fn new_with_connections(connection: Option<T>) -> (controller: Self)
        ensures
            controller == Self::assembled(
                Memory::zeroed(),
                false,
                connection,
                DummyDisplayConnection {  },
            ),
    {
        MemoryController {
            memory: Memory::new(),
            test_mode: false,
            timer: Timer::new(),
            serial: Serial::new(connection),
            cartridge: Cartridge::new(),
            graphics: Video::new(DummyDisplayConnection {  }),
        }
    }
}

impl MemoryController<LoggerSerialConnection, DummyDisplayConnection> {
    /// Create a new memory bus filled with `0`.
    pub fn new() -> (controller: Self)
        ensures
            controller == Self::assembled(
                Memory::zeroed(),
                false,
                Some(LoggerSerialConnection { last: None, count: 0 }),
                DummyDisplayConnection {  },
            ),
    {
        MemoryController {
            memory: Memory::new(),
            test_mode: false,
            timer: Timer::new(),
            serial: Serial::new(Some(LoggerSerialConnection::new())),
            cartridge: Cartridge::new(),
            graphics: Video::new(DummyDisplayConnection {  }),
        }
    }

    /// Create a new memory bus filled with `0`, in test mode.
    pub fn new_for_tests() -> (controller: Self)
        ensures
            controller == Self::assembled(
                Memory::zeroed(),
                true,
                Some(LoggerSerialConnection { last: None, count: 0 }),
                DummyDisplayConnection {  },
            ),
    {
        MemoryController {
            memory: Memory::new(),
            test_mode: true,
            timer: Timer::new(),
            serial: Serial::new(Some(LoggerSerialConnection::new())),
            cartridge: Cartridge::new(),
            graphics: Video::new(DummyDisplayConnection {  }),
        }
    }

    /// Create a new memory bus in test mode. `init` is placed at address 0;
    /// the remaining memory is filled with `0`.
    pub fn new_with_init(init: &[u8]) -> (controller: Self)
        ensures
            initialized(controller.memory, init@),
            controller == Self::assembled(
                controller.memory,
                true,
                Some(LoggerSerialConnection { last: None, count: 0 }),
                DummyDisplayConnection {  },
            ),
    {
        MemoryController {
            memory: Memory::new_with_init(init),
            test_mode: true,
            timer: Timer::new(),
            serial: Serial::new(Some(LoggerSerialConnection::new())),
            cartridge: Cartridge::new(),
            graphics: Video::new(DummyDisplayConnection {  }),
        }
    }
}

impl<T: SerialConnection, D: DisplayConnection> MemoryDevice for MemoryController<T, D> {
    /// One address always reads `0xFF`; every other address reads the backing memory.
    open spec fn spec_read(&self, address: u16) -> u8 {
        if address == ALWAYS_RETURNS_FF_ADDRESS {
            0xFF
        } else {
            self.memory.byte(address)
        }
    }

    /// In test mode the value first goes to the backing memory. Then the
    /// write is offered to the timer, the serial link, the cartridge and the
    /// display controller, in this order; the first that claims the address
    /// handles it. If none does, the value goes to the backing memory.
    open spec fn spec_write(&self, address: u16, value: u8) -> Self {
        let memory = if self.test_mode {
            self.memory.with_byte(address, value)
        } else {
            self.memory
        };
        if Timer::claims(address) {
            let (timer, memory) = self.timer.spec_write(memory, address, value);
            MemoryController { timer, memory, ..*self }
        } else if self::serial::claims(address) {
            let (serial, memory) = self.serial.spec_write(memory, address, value);
            MemoryController { serial, memory, ..*self }
        } else if Cartridge::claims(address) {
            MemoryController {
                cartridge: self.cartridge.spec_write(address, value),
                memory,
                ..*self
            }
        } else if self::video::claims(address) {
            MemoryController { memory: self::video::spec_write(memory, address, value), ..*self }
        } else {
            MemoryController { memory: memory.with_byte(address, value), ..*self }
        }
    }

    /// The timer, then the serial link, then the display controller advance
    /// by one machine cycle.
    open spec fn spec_tick(&self) -> Self {
        self.spec_cycle()
    }

    fn tick(&mut self) {
        self.process_cycle();
    }

    fn read(&self, address: u16) -> (value: u8) {
        if address == ALWAYS_RETURNS_FF_ADDRESS {
            0xFF
        } else {
            self.memory.get(address)
        }
    }

    fn write(&mut self, address: u16, value: u8) {
        if self.test_mode {
            self.memory.set(address, value);
        }
        let write_timer_result = self.timer.write(&mut self.memory, address, value);
        if write_timer_result.is_some() {
            return ;
        }
        let write_serial_result = self.serial.write(&mut self.memory, address, value);
        if write_serial_result.is_some() {
            return ;
        }
        let write_cartridge_result = self.cartridge.write(&mut self.memory, address, value);
        if write_cartridge_result.is_some() {
            return ;
        }
        let write_video_result = self.graphics.write(&mut self.memory, address, value);
        if write_video_result.is_some() {
            return ;
        }
        self.memory.set(address, value);
    }
}

/// A byte written to an address that no peripheral claims is read back from
/// it, unless the address is the one that always reads `0xFF`.
pub proof fn lemma_write_then_read<T: SerialConnection, D: DisplayConnection>(
    controller: MemoryController<T, D>,
    address: u16,
    value: u8,
)
    requires
        !claimed(address),
    ensures
        controller.spec_write(address, value).spec_read(address) == if address
            == ALWAYS_RETURNS_FF_ADDRESS {
            0xFF
        } else {
            value
        },
{
}

/// A write to an address that no peripheral claims changes what is read from
/// that address only, and leaves the peripherals as they were.
pub proof fn lemma_write_elsewhere<T: SerialConnection, D: DisplayConnection>(
    controller: MemoryController<T, D>,
    address: u16,
    value: u8,
    other: u16,
)
    requires
        !claimed(address),
        other != address,
    ensures
        controller.spec_write(address, value).spec_read(other) == controller.spec_read(other),
        controller.spec_write(address, value) == (MemoryController {
            memory: controller.spec_write(address, value).memory,
            ..controller
        }),
{
}

/// A write to an address that a peripheral claims leaves every byte that no
/// peripheral claims as it was, also in test mode.
pub proof fn lemma_claimed_write_is_contained<T: SerialConnection, D: DisplayConnection>(
    controller: MemoryController<T, D>,
    address: u16,
    value: u8,
    other: u16,
)
    requires
        claimed(address),
        !claimed(other),
    ensures
        controller.spec_write(address, value).spec_read(other) == controller.spec_read(other),
{
}

/// Whether a device of type `T` keeps what is written to an address: in
/// every state, a byte written to the address is read back from it.
pub open spec fn retains<T: MemoryDevice>(address: u16) -> bool {
    forall|memory: T, value: u8| #[trigger]
        memory.spec_write(address, value).spec_read(address) == value
}

/// Whether, on a device of type `T`, a write to the address `written` leaves
/// what is read from `address` as it was, in every state.
pub open spec fn undisturbed<T: MemoryDevice>(address: u16, written: u16) -> bool {
    forall|memory: T, value: u8| #[trigger]
        memory.spec_write(written, value).spec_read(address) == memory.spec_read(address)
}

/// The memory bus keeps what is written to an address that no peripheral
/// claims, but for the address that always reads `0xFF`; and a write to one
/// address never changes what is read from another.
pub proof fn lemma_controller_is_memory<T: SerialConnection, D: DisplayConnection>(
    address: u16,
    other: u16,
)
    ensures
        !claimed(address) && address != ALWAYS_RETURNS_FF_ADDRESS ==> retains::<
            MemoryController<T, D>,
        >(address),
        other != address ==> undisturbed::<MemoryController<T, D>>(address, other),
{
}

/// The backing memory keeps what is written to any address, and a write to
/// one address never changes what is read from another.
pub proof fn lemma_plain_memory(address: u16, other: u16)
    ensures
        retains::<Memory>(address),
        other != address ==> undisturbed::<Memory>(address, other),
{
}

} // verus!

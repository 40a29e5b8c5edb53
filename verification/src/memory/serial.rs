use vstd::prelude::*;
use crate::cpu::interrupt_controller::InterruptController;
use crate::cpu::Interrupt;
use crate::memory::memory_addresses::{
    INTERRUPT_FLAG_ADDRESS,
    SERIAL_CONTROL_ADDRESS,
    SERIAL_DATA_ADDRESS,
};
use crate::memory::Memory;

verus! {

/// The number of machine cycles that the transfer of one byte takes.
pub const TRANSFER_CYCLES: u16 = 1024;

/// The byte that arrives when nothing is connected.
pub const DISCONNECTED_REPLY: u8 = 0xFF;

/// The other end of the serial link. It sees one byte per transfer and
/// answers with one byte.
pub trait SerialConnection: Sized {
    /// The byte that the connection answers with when `byte` is sent.
    spec fn spec_reply(&self, byte: u8) -> u8;

    /// The connection after `byte` was sent.
    spec fn spec_after(&self, byte: u8) -> Self;

    /// Send a byte and receive one.
    fn exchange(&mut self, byte: u8) -> (reply: u8)
        ensures
            reply == old(self).spec_reply(byte),
            *final(self) == old(self).spec_after(byte),
    ;
}

/// A connection without a partner: it remembers the last byte that was sent
/// and counts the bytes, and always answers `0xFF`.
#[derive(Debug, Clone, Copy, PartialEq, Eq, Structural)]
pub struct LoggerSerialConnection {
    /// The byte that was sent last.
    pub last: Option<u8>,
    /// The number of bytes that were sent; it stops at the largest value.
    pub count: u64,
}

impl LoggerSerialConnection {
    /// A connection that has not seen a byte yet.
    pub fn new() -> (connection: LoggerSerialConnection)
        ensures
            connection == (LoggerSerialConnection { last: None, count: 0 }),
    {
        LoggerSerialConnection { last: None, count: 0 }
    }
}

impl SerialConnection for LoggerSerialConnection {
    open spec fn spec_reply(&self, byte: u8) -> u8 {
        DISCONNECTED_REPLY
    }

    open spec fn spec_after(&self, byte: u8) -> Self {
        LoggerSerialConnection {
            last: Some(byte),
            count: if self.count == u64::MAX {
                self.count
            } else {
                (self.count + 1) as u64
            },
        }
    }

    fn exchange(&mut self, byte: u8) -> (reply: u8) {
        self.last = Some(byte);
        if self.count < u64::MAX {
            self.count = self.count + 1;
        }
        DISCONNECTED_REPLY
    }
}

/// The serial link of the machine.
///
/// The registers SB and SC live in the backing memory; the link itself holds
/// the connection and the machine cycles that the running transfer still takes.
pub struct Serial<T: SerialConnection> {
    /// The other end of the link, if there is one.
    pub connection: Option<T>,
    /// The machine cycles until the running transfer completes; 0 if none runs.
    pub remaining_cycles: u16,
}

/// Whether a value written to the serial control register starts a transfer
/// that this machine clocks.
pub open spec fn starts_transfer(control: u8) -> bool {
    control & 0x81 == 0x81
}

/// Whether the serial link handles writes to an address itself.
pub open spec fn claims(address: u16) -> bool {
    address == SERIAL_DATA_ADDRESS || address == SERIAL_CONTROL_ADDRESS
}

impl<T: SerialConnection> Serial<T> {
    /// The serial link and the memory after a write to an address.
    ///
    /// Both registers take the value. A write to the control register with
    /// bits 7 and 0 set starts a transfer; any other write to it stops the
    /// running one.
    pub open spec fn spec_write(self, memory: Memory, address: u16, value: u8) -> (
        Serial<T>,
        Memory,
    ) {
        if address == SERIAL_CONTROL_ADDRESS {
            (
                Serial {
                    remaining_cycles: if starts_transfer(value) {
                        TRANSFER_CYCLES
                    } else {
                        0
                    },
                    ..self
                },
                memory.with_byte(address, value),
            )
        } else if address == SERIAL_DATA_ADDRESS {
            (self, memory.with_byte(address, value))
        } else {
            (self, memory)
        }
    }

    /// Whether the running transfer completes in the next machine cycle.
    pub open spec fn completes(self) -> bool {
        self.remaining_cycles == 1
    }

    /// The byte that arrives when `byte` is sent.
    pub open spec fn reply(self, byte: u8) -> u8 {
        match self.connection {
            Some(connection) => connection.spec_reply(byte),
            None => DISCONNECTED_REPLY,
        }
    }

    /// The connection after `byte` was sent.
    pub open spec fn connection_after(self, byte: u8) -> Option<T> {
        match self.connection {
            Some(connection) => Some(connection.spec_after(byte)),
            None => None,
        }
    }

    /// The memory after a transfer has completed: the data register holds the
    /// byte that arrived, bit 7 of the control register is cleared and the
    /// serial interrupt is requested.
    pub open spec fn completed(self, memory: Memory) -> Memory {
        let received = memory.with_byte(
            SERIAL_DATA_ADDRESS,
            self.reply(memory.byte(SERIAL_DATA_ADDRESS)),
        );
        let stopped = received.with_byte(
            SERIAL_CONTROL_ADDRESS,
            received.byte(SERIAL_CONTROL_ADDRESS) & 0x7F,
        );
        stopped.with_byte(
            INTERRUPT_FLAG_ADDRESS,
            stopped.byte(INTERRUPT_FLAG_ADDRESS) | Interrupt::Serial.spec_mask(),
        )
    }

    /// The serial link and the memory after one machine cycle.
    pub open spec fn spec_cycle(self, memory: Memory) -> (Serial<T>, Memory) {
        if self.completes() {
            (
                Serial {
                    connection: self.connection_after(memory.byte(SERIAL_DATA_ADDRESS)),
                    remaining_cycles: 0,
                },
                self.completed(memory),
            )
        } else if self.remaining_cycles == 0 {
            (self, memory)
        } else {
            (Serial { remaining_cycles: (self.remaining_cycles - 1) as u16, ..self }, memory)
        }
    }

    /// A serial link on which no transfer runs.
    pub fn new(connection: Option<T>) -> (serial: Serial<T>)
        ensures
            serial == (Serial { connection, remaining_cycles: 0 }),
    {
        Serial { connection, remaining_cycles: 0 }
    }

    /// Offer a write to the serial link. Returns `Some` if the link has handled it.
    pub fn write(&mut self, memory: &mut Memory, address: u16, value: u8) -> (claimed: Option<()>)
        ensures
            claimed is Some <==> claims(address),
            (*final(self), *final(memory)) == old(self).spec_write(*old(memory), address, value),
    {
        if address == SERIAL_CONTROL_ADDRESS {
            self.remaining_cycles = if value & 0x81 == 0x81 {
                TRANSFER_CYCLES
            } else {
                0
            };
            memory.set(address, value);
            Some(())
        } else if address == SERIAL_DATA_ADDRESS {
            memory.set(address, value);
            Some(())
        } else {
            None
        }
    }

    /// Advance the serial link by one machine cycle.
    pub fn cycle(&mut self, memory: &mut Memory)
        ensures
            (*final(self), *final(memory)) == old(self).spec_cycle(*old(memory)),
    {
        if self.remaining_cycles == 1 {
            let sent = memory.get(SERIAL_DATA_ADDRESS);
            let reply = match &mut self.connection {
                Some(connection) => connection.exchange(sent),
                None => DISCONNECTED_REPLY,
            };
            self.remaining_cycles = 0;
            memory.set(SERIAL_DATA_ADDRESS, reply);
            let control = memory.get(SERIAL_CONTROL_ADDRESS);
            memory.set(SERIAL_CONTROL_ADDRESS, control & 0x7F);
            memory.request(Interrupt::Serial);
        } else if self.remaining_cycles > 0 {
            self.remaining_cycles = self.remaining_cycles - 1;
        }
    }
}

} // verus!

use vstd::prelude::*;
use crate::cpu::interrupt_controller::InterruptController;
use crate::cpu::Interrupt;
use crate::memory::memory_addresses::{
    INTERRUPT_FLAG_ADDRESS,
    TIMER_CONTROL_ADDRESS,
    TIMER_COUNTER_ADDRESS,
    TIMER_DIVIDER_ADDRESS,
    TIMER_MODULO_ADDRESS,
};
use crate::memory::Memory;

verus! {

/// The number of machine cycles between two increments of the divider register.
pub const DIVIDER_PERIOD: u8 = 64;

/// The timer: a divider that always runs and a counter that raises an
/// interrupt when it overflows.
///
/// The registers DIV, TIMA, TMA and TAC live in the backing memory; the timer
/// itself only counts the machine cycles since their last increment.
#[derive(Debug, Clone, Copy, PartialEq, Eq, Structural)]
pub struct Timer {
    /// The machine cycles since the divider register was last incremented.
    pub divider_cycles: u8,
    /// The machine cycles since the timer counter was last incremented.
    pub counter_cycles: u16,
}

/// The number of machine cycles between two increments of the timer counter,
/// as the two low bits of the timer control register select it.
pub open spec fn counter_period(control: u8) -> u16 {
    if control & 0x03 == 0 {
        256
    } else if control & 0x03 == 1 {
        4
    } else if control & 0x03 == 2 {
        16
    } else {
        64
    }
}

/// Whether the timer control register lets the timer counter run.
pub open spec fn counter_enabled(control: u8) -> bool {
    control & 0x04 != 0
}

/// The next value of a byte that counts upwards and wraps around.
pub open spec fn wrapping_increment(value: u8) -> u8 {
    if value == 0xFF {
        0
    } else {
        (value + 1) as u8
    }
}

impl Timer {
    /// Whether the timer handles writes to an address itself.
    pub open spec fn claims(address: u16) -> bool {
        TIMER_DIVIDER_ADDRESS <= address <= TIMER_CONTROL_ADDRESS
    }

    /// The timer and the memory after a write to an address.
    ///
    /// A write to the divider register resets it to zero, whatever the value;
    /// the other three registers take the value.
    pub open spec fn spec_write(self, memory: Memory, address: u16, value: u8) -> (Timer, Memory) {
        if address == TIMER_DIVIDER_ADDRESS {
            (Timer { divider_cycles: 0, counter_cycles: 0 }, memory.with_byte(address, 0))
        } else if Timer::claims(address) {
            (self, memory.with_byte(address, value))
        } else {
            (self, memory)
        }
    }

    /// Whether the divider register is incremented in the next machine cycle.
    pub open spec fn divider_ticks(self) -> bool {
        self.divider_cycles >= DIVIDER_PERIOD - 1
    }

    /// Whether the timer counter is incremented in the next machine cycle.
    pub open spec fn counter_ticks(self, memory: Memory) -> bool {
        counter_enabled(memory.byte(TIMER_CONTROL_ADDRESS)) && self.counter_cycles + 1
            >= counter_period(memory.byte(TIMER_CONTROL_ADDRESS))
    }

    /// Whether the timer counter wraps around in the next machine cycle.
    pub open spec fn counter_wraps(self, memory: Memory) -> bool {
        self.counter_ticks(memory) && memory.byte(TIMER_COUNTER_ADDRESS) == 0xFF
    }

    /// The memory after the divider's part of a machine cycle.
    pub open spec fn divided(self, memory: Memory) -> Memory {
        if self.divider_ticks() {
            memory.with_byte(
                TIMER_DIVIDER_ADDRESS,
                wrapping_increment(memory.byte(TIMER_DIVIDER_ADDRESS)),
            )
        } else {
            memory
        }
    }

    /// The memory after the counter's part of a machine cycle.
    pub open spec fn counted(self, memory: Memory) -> Memory {
        if self.counter_wraps(memory) {
            let reloaded = memory.with_byte(
                TIMER_COUNTER_ADDRESS,
                memory.byte(TIMER_MODULO_ADDRESS),
            );
            reloaded.with_byte(
                INTERRUPT_FLAG_ADDRESS,
                reloaded.byte(INTERRUPT_FLAG_ADDRESS) | Interrupt::Timer.spec_mask(),
            )
        } else if self.counter_ticks(memory) {
            memory.with_byte(
                TIMER_COUNTER_ADDRESS,
                wrapping_increment(memory.byte(TIMER_COUNTER_ADDRESS)),
            )
        } else {
            memory
        }
    }

    /// The timer and the memory after one machine cycle.
    ///
    /// The divider register is incremented every 64 machine cycles. While the
    /// timer control register enables it, the timer counter is incremented at
    /// the selected rate; when it wraps around it is reloaded from the timer
    /// modulo and the timer interrupt is requested in the same cycle.
    pub open spec fn spec_cycle(self, memory: Memory) -> (Timer, Memory) {
        let divided = self.divided(memory);
        (
            Timer {
                divider_cycles: if self.divider_ticks() {
                    0
                } else {
                    (self.divider_cycles + 1) as u8
                },
                counter_cycles: if !counter_enabled(divided.byte(TIMER_CONTROL_ADDRESS)) {
                    self.counter_cycles
                } else if self.counter_ticks(divided) {
                    0
                } else {
                    (self.counter_cycles + 1) as u16
                },
            },
            self.counted(divided),
        )
    }

    /// A timer that has not counted a cycle yet.
    pub fn new() -> (timer: Timer)
        ensures
            timer == (Timer { divider_cycles: 0, counter_cycles: 0 }),
    {
        Timer { divider_cycles: 0, counter_cycles: 0 }
    }

    /// Offer a write to the timer. Returns `Some` if the timer has handled it.
    pub fn write(&mut self, memory: &mut Memory, address: u16, value: u8) -> (claimed: Option<()>)
        ensures
            claimed is Some <==> Timer::claims(address),
            (*final(self), *final(memory)) == old(self).spec_write(*old(memory), address, value),
    {
        if address == TIMER_DIVIDER_ADDRESS {
            self.divider_cycles = 0;
            self.counter_cycles = 0;
            memory.set(address, 0);
            Some(())
        } else if TIMER_DIVIDER_ADDRESS <= address && address <= TIMER_CONTROL_ADDRESS {
            memory.set(address, value);
            Some(())
        } else {
            None
        }
    }

    /// Advance the timer by one machine cycle.
    pub fn cycle(&mut self, memory: &mut Memory)
        ensures
            (*final(self), *final(memory)) == old(self).spec_cycle(*old(memory)),
    {
        if self.divider_cycles >= DIVIDER_PERIOD - 1 {
            self.divider_cycles = 0;
            let divider = memory.get(TIMER_DIVIDER_ADDRESS);
            memory.set(TIMER_DIVIDER_ADDRESS, if divider == 0xFF { 0 } else { divider + 1 });
        } else {
            self.divider_cycles = self.divider_cycles + 1;
        }
        let control = memory.get(TIMER_CONTROL_ADDRESS);
        if control & 0x04 != 0 {
            let period: u16 = if control & 0x03 == 0 {
                256
            } else if control & 0x03 == 1 {
                4
            } else if control & 0x03 == 2 {
                16
            } else {
                64
            };
            if self.counter_cycles >= period - 1 {
                self.counter_cycles = 0;
                let counter = memory.get(TIMER_COUNTER_ADDRESS);
                if counter == 0xFF {
                    let modulo = memory.get(TIMER_MODULO_ADDRESS);
                    memory.set(TIMER_COUNTER_ADDRESS, modulo);
                    memory.request(Interrupt::Timer);
                } else {
                    memory.set(TIMER_COUNTER_ADDRESS, counter + 1);
                }
            } else {
                self.counter_cycles = self.counter_cycles + 1;
            }
        }
    }
}

/// When the timer counter wraps around, the timer interrupt is requested in
/// the same machine cycle, and the counter restarts from the timer modulo.
pub proof fn lemma_timer_overflow_requests_interrupt(timer: Timer, memory: Memory)
    requires
        timer.counter_wraps(timer.divided(memory)),
    ensures
        timer.spec_cycle(memory).1.byte(INTERRUPT_FLAG_ADDRESS) & Interrupt::Timer.spec_mask() != 0,
        timer.spec_cycle(memory).1.byte(TIMER_COUNTER_ADDRESS) == memory.byte(TIMER_MODULO_ADDRESS),
{
    let divided = timer.divided(memory);
    let reloaded = divided.with_byte(TIMER_COUNTER_ADDRESS, divided.byte(TIMER_MODULO_ADDRESS));
    let flags = reloaded.byte(INTERRUPT_FLAG_ADDRESS);
    assert((flags | 0x04u8) & 0x04u8 != 0) by (bit_vector);
}

/// Unless the timer counter wraps around, a machine cycle of the timer leaves
/// the interrupt requests as they were.
pub proof fn lemma_timer_requests_only_on_overflow(timer: Timer, memory: Memory)
    requires
        !timer.counter_wraps(timer.divided(memory)),
    ensures
        timer.spec_cycle(memory).1.byte(INTERRUPT_FLAG_ADDRESS) == memory.byte(
            INTERRUPT_FLAG_ADDRESS,
        ),
{
}

} // verus!

use vstd::prelude::*;
use crate::cpu::interrupt_controller::InterruptController;
use crate::cpu::Interrupt;
use crate::memory::memory_addresses::{
    INTERRUPT_FLAG_ADDRESS,
    LCD_CONTROL_ADDRESS,
    LCD_LAST_ADDRESS,
    LCD_LINE_ADDRESS,
    LCD_LINE_COMPARE_ADDRESS,
    LCD_STATUS_ADDRESS,
};
use crate::memory::Memory;

verus! {

/// The number of machine cycles that the display spends on one line.
pub const CYCLES_PER_LINE: u8 = 114;

/// The number of lines of a frame, the ten lines of the vertical blank included.
pub const LINES_PER_FRAME: u8 = 154;

/// The first line of the vertical blank.
pub const VBLANK_LINE: u8 = 144;

/// The number of machine cycles of a frame.
pub const CYCLES_PER_FRAME: u32 = 17556;

/// The host's display. At the start of every vertical blank it is handed the
/// memory, from which it draws the frame.
pub trait DisplayConnection: Sized {
    /// The display after it was handed a frame.
    spec fn spec_present(&self, frame: Memory) -> Self;

    /// Hand a finished frame to the display.
    fn present(&mut self, frame: &Memory)
        ensures
            *final(self) == old(self).spec_present(*frame),
    ;
}

/// A display that discards every frame.
#[derive(Debug, Clone, Copy, PartialEq, Eq, Structural)]
pub struct DummyDisplayConnection {}

impl DisplayConnection for DummyDisplayConnection {
    open spec fn spec_present(&self, frame: Memory) -> Self {
        *self
    }

    fn present(&mut self, frame: &Memory) {
    }
}

/// The position of the display within a frame after one more machine cycle.
pub open spec fn next_position(dot: u8, line: u8) -> (u8, u8) {
    if dot < CYCLES_PER_LINE - 1 {
        ((dot + 1) as u8, line)
    } else if line < LINES_PER_FRAME - 1 {
        (0, (line + 1) as u8)
    } else {
        (0, 0)
    }
}

/// Whether the next machine cycle takes the display from the end of line 143
/// into the vertical blank.
pub open spec fn enters_vblank(dot: u8, line: u8) -> bool {
    dot >= CYCLES_PER_LINE - 1 && line == VBLANK_LINE - 1
}

/// The position of the display after a number of machine cycles.
pub open spec fn position_after(dot: u8, line: u8, cycles: nat) -> (u8, u8)
    decreases cycles,
{
    if cycles == 0 {
        (dot, line)
    } else {
        let next = next_position(dot, line);
        position_after(next.0, next.1, (cycles - 1) as nat)
    }
}

/// How often the display enters the vertical blank in a number of machine cycles.
pub open spec fn vblanks_within(dot: u8, line: u8, cycles: nat) -> nat
    decreases cycles,
{
    if cycles == 0 {
        0
    } else {
        let next = next_position(dot, line);
        let rest = vblanks_within(next.0, next.1, (cycles - 1) as nat);
        if enters_vblank(dot, line) {
            rest + 1
        } else {
            rest
        }
    }
}

/// Whether the display controller handles writes to an address itself.
pub open spec fn claims(address: u16) -> bool {
    LCD_CONTROL_ADDRESS <= address <= LCD_LAST_ADDRESS
}

/// The memory after a write was offered to the display controller. The line
/// register cannot be written; the other LCD registers take the value.
pub open spec fn spec_write(memory: Memory, address: u16, value: u8) -> Memory {
    if claims(address) && address != LCD_LINE_ADDRESS {
        memory.with_byte(address, value)
    } else {
        memory
    }
}

/// The display controller.
///
/// The LCD registers live in the backing memory; the controller itself holds
/// the display and its position within the frame.
pub struct Video<D: DisplayConnection> {
    /// The host's display.
    pub display: D,
    /// The machine cycles spent on the current line, below 114.
    pub dot: u8,
    /// The current line, below 154.
    pub line: u8,
}

impl<D: DisplayConnection> Video<D> {
    /// Whether the position lies within a frame.
    pub open spec fn well_formed(self) -> bool {
        self.dot < CYCLES_PER_LINE && self.line < LINES_PER_FRAME
    }

    /// Whether the next machine cycle ends the current line.
    pub open spec fn ends_line(self) -> bool {
        self.dot >= CYCLES_PER_LINE - 1
    }

    /// Whether the next machine cycle requests the V-Blank interrupt.
    pub open spec fn requests_vblank(self) -> bool {
        enters_vblank(self.dot, self.line)
    }

    /// Whether the next machine cycle requests the LCD-STAT interrupt: it
    /// starts the line that the line compare register names, while bit 6 of
    /// the status register selects this condition.
    pub open spec fn requests_lcd_stat(self, memory: Memory) -> bool {
        self.ends_line() && memory.byte(LCD_STATUS_ADDRESS) & 0x40 != 0 && memory.byte(
            LCD_LINE_COMPARE_ADDRESS,
        ) == next_position(self.dot, self.line).1
    }

    /// The memory after one machine cycle.
    pub open spec fn cycled(self, memory: Memory) -> Memory {
        if self.ends_line() {
            let started = memory.with_byte(LCD_LINE_ADDRESS, next_position(self.dot, self.line).1);
            let compared = if self.requests_lcd_stat(memory) {
                started.with_byte(
                    INTERRUPT_FLAG_ADDRESS,
                    started.byte(INTERRUPT_FLAG_ADDRESS) | Interrupt::LcdStat.spec_mask(),
                )
            } else {
                started
            };
            if self.requests_vblank() {
                compared.with_byte(
                    INTERRUPT_FLAG_ADDRESS,
                    compared.byte(INTERRUPT_FLAG_ADDRESS) | Interrupt::VBlank.spec_mask(),
                )
            } else {
                compared
            }
        } else {
            memory
        }
    }

    /// The display controller and the memory after one machine cycle.
    ///
    /// A line takes 114 machine cycles and a frame 154 lines. When a line
    /// ends, the line register takes the number of the next line. At the end
    /// of line 143 the V-Blank interrupt is requested and the display is
    /// handed the frame.
    pub open spec fn spec_cycle(self, memory: Memory) -> (Video<D>, Memory) {
        (
            Video {
                display: if self.requests_vblank() {
                    self.display.spec_present(self.cycled(memory))
                } else {
                    self.display
                },
                dot: next_position(self.dot, self.line).0,
                line: next_position(self.dot, self.line).1,
            },
            self.cycled(memory),
        )
    }

    /// A display controller at the start of a frame.
    pub fn new(display: D) -> (video: Video<D>)
        ensures
            video == (Video { display, dot: 0, line: 0 }),
            video.well_formed(),
    {
        Video { display, dot: 0, line: 0 }
    }

    /// Offer a write to the display controller. Returns `Some` if the
    /// controller has handled it.
    pub fn write(&mut self, memory: &mut Memory, address: u16, value: u8) -> (claimed: Option<()>)
        ensures
            claimed is Some <==> claims(address),
            *final(self) == *old(self),
            *final(memory) == spec_write(*old(memory), address, value),
    {
        if address == LCD_LINE_ADDRESS {
            Some(())
        } else if LCD_CONTROL_ADDRESS <= address && address <= LCD_LAST_ADDRESS {
            memory.set(address, value);
            Some(())
        } else {
            None
        }
    }

    /// Advance the display controller by one machine cycle.
    pub fn cycle(&mut self, memory: &mut Memory)
        ensures
            (*final(self), *final(memory)) == old(self).spec_cycle(*old(memory)),
            old(self).well_formed() ==> final(self).well_formed(),
    {
        if self.dot < CYCLES_PER_LINE - 1 {
            self.dot = self.dot + 1;
        } else {
            let vblank = self.line == VBLANK_LINE - 1;
            let line: u8 = if self.line < LINES_PER_FRAME - 1 {
                self.line + 1
            } else {
                0
            };
            let lcd_stat = memory.get(LCD_STATUS_ADDRESS) & 0x40 != 0 && memory.get(
                LCD_LINE_COMPARE_ADDRESS,
            ) == line;
            self.dot = 0;
            self.line = line;
            memory.set(LCD_LINE_ADDRESS, line);
            if lcd_stat {
                memory.request(Interrupt::LcdStat);
            }
            if vblank {
                memory.request(Interrupt::VBlank);
                self.display.present(memory);
            }
        }
    }
}

/// Within `cycles` machine cycles that do not go past the end of the frame,
/// the display enters the vertical blank once if the end of line 143 lies
/// among them, and not otherwise; and it moves on by one position per cycle.
pub proof fn lemma_vblanks_until_frame_end(dot: u8, line: u8, cycles: nat)
    requires
        dot < CYCLES_PER_LINE,
        line < LINES_PER_FRAME,
        line * 114 + dot + cycles <= CYCLES_PER_FRAME,
    ensures
        vblanks_within(dot, line, cycles) == (if line * 114 + dot <= 16415 && 16415 < line * 114
            + dot + cycles {
            1nat
        } else {
            0nat
        }),
        position_after(dot, line, cycles).0 < CYCLES_PER_LINE,
        position_after(dot, line, cycles).1 < LINES_PER_FRAME,
        position_after(dot, line, cycles).1 * 114 + position_after(dot, line, cycles).0 == (if line
            * 114 + dot + cycles == CYCLES_PER_FRAME {
            0
        } else {
            line * 114 + dot + cycles
        }),
    decreases cycles,
{
    if cycles > 0 {
        let next = next_position(dot, line);
        if line * 114 + dot + 1 < CYCLES_PER_FRAME {
            lemma_vblanks_until_frame_end(next.0, next.1, (cycles - 1) as nat);
        } else {
            assert(cycles == 1);
            assert(position_after(next.0, next.1, 0) == next);
            assert(vblanks_within(next.0, next.1, 0) == 0);
        }
    }
}

/// The vertical blanks of two stretches of machine cycles add up.
pub proof fn lemma_vblanks_split(dot: u8, line: u8, first: nat, second: nat)
    ensures
        vblanks_within(dot, line, first + second) == vblanks_within(dot, line, first)
            + vblanks_within(
            position_after(dot, line, first).0,
            position_after(dot, line, first).1,
            second,
        ),
        position_after(dot, line, first + second) == position_after(
            position_after(dot, line, first).0,
            position_after(dot, line, first).1,
            second,
        ),
    decreases first,
{
    if first > 0 {
        let next = next_position(dot, line);
        lemma_vblanks_split(next.0, next.1, (first - 1) as nat, second);
        assert((first - 1) as nat + second == (first + second - 1) as nat);
    }
}

/// From any position within a frame, the display enters the vertical blank
/// exactly once in the 17556 machine cycles of a frame, and is then back at
/// the position from which it started.
pub proof fn lemma_one_vblank_per_frame(dot: u8, line: u8)
    requires
        dot < CYCLES_PER_LINE,
        line < LINES_PER_FRAME,
    ensures
        vblanks_within(dot, line, CYCLES_PER_FRAME as nat) == 1,
        position_after(dot, line, CYCLES_PER_FRAME as nat) == (dot, line),
{
    let position = (line * 114 + dot) as nat;
    let first = (CYCLES_PER_FRAME - position) as nat;
    lemma_vblanks_until_frame_end(dot, line, first);
    let start = position_after(dot, line, first);
    assert(start == (0u8, 0u8));
    lemma_vblanks_until_frame_end(0, 0, position);
    lemma_vblanks_split(dot, line, first, position);
    assert(first + position == CYCLES_PER_FRAME as nat);
    let end = position_after(0, 0, position);
    assert(end.1 * 114 + end.0 == line * 114 + dot);
    assert(end == (dot, line));
}

/// A machine cycle of the display controller moves it to the next position
/// and requests the V-Blank interrupt exactly when it enters the vertical blank.
pub proof fn lemma_cycle_follows_position<D: DisplayConnection>(video: Video<D>, memory: Memory)
    ensures
        (video.spec_cycle(memory).0.dot, video.spec_cycle(memory).0.line) == next_position(
            video.dot,
            video.line,
        ),
        enters_vblank(video.dot, video.line) ==> video.spec_cycle(memory).1.byte(
            INTERRUPT_FLAG_ADDRESS,
        ) & Interrupt::VBlank.spec_mask() != 0,
        !enters_vblank(video.dot, video.line) ==> (video.spec_cycle(memory).1.byte(
            INTERRUPT_FLAG_ADDRESS,
        ) & Interrupt::VBlank.spec_mask() != 0 <==> memory.byte(INTERRUPT_FLAG_ADDRESS)
            & Interrupt::VBlank.spec_mask() != 0),
{
    let flags = memory.byte(INTERRUPT_FLAG_ADDRESS);
    assert((flags | 0x01u8) & 0x01u8 != 0) by (bit_vector);
    assert(((flags | 0x02u8) | 0x01u8) & 0x01u8 != 0) by (bit_vector);
    assert((flags | 0x02u8) & 0x01u8 == flags & 0x01u8) by (bit_vector);
}

} // verus!

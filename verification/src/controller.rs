//! The controller state machine.
//!
//! The driver is open loop: every operation is fire-and-forget, so the only
//! way to stay correct is to track on the host exactly what each issued byte
//! does to the controller — its power-up phase, which write cursor (DDRAM or
//! CGRAM) is armed, where that cursor stands, and what the glyph memory
//! holds. Each operation returns the bus traffic it decided on as
//! [`BusWrite`] values; an executing layer transmits them in order and
//! sleeps the returned settle times.

use vstd::prelude::*;

use crate::rows::{DisplayGeometry, LCDLineNumbers};
use crate::signal::TransferMode;

verus! {

/// First bootstrap command of the 4-bit init dance: function-set nibbles
/// that force the controller into a known 8-bit state.
pub const FIRST_INIT_COMMAND: u8 = 0x33;

/// Second bootstrap command: switches the interface to 4-bit operation.
pub const SECOND_INIT_COMMAND: u8 = 0x32;

/// Base bit of the Function Set command.
pub const FUNCTION_SET_FLAG: u8 = 0x20;

/// Function Set bit selecting two physical display lines.
pub const TWO_LINES_FLAG: u8 = 0x08;

/// Function Set bit selecting the 5x10 dot font instead of 5x8.
pub const WIDE_FONT_FLAG: u8 = 0x04;

/// Base bit of the Display Control command.
pub const DISPLAY_CONTROL_FLAG: u8 = 0x08;

/// Display Control bit: display visible.
pub const DISPLAY_ON_FLAG: u8 = 0x04;

/// Display Control bit: cursor visible.
pub const CURSOR_ON_FLAG: u8 = 0x02;

/// Display Control bit: cursor blinking.
pub const BLINK_ON_FLAG: u8 = 0x01;

/// The Clear Display command.
pub const CLEAR_DISPLAY_COMMAND: u8 = 0x01;

/// Base bit of the Set DDRAM Address command; the low seven bits carry the
/// address.
pub const SET_DDRAM_ADDRESS_FLAG: u8 = 0x80;

/// Base bit of the Set CGRAM Address command; the low six bits carry the
/// address.
pub const SET_CGRAM_ADDRESS_FLAG: u8 = 0x40;

/// Number of DDRAM addresses.
pub const DDRAM_SIZE: u8 = 0x80;

/// Number of CGRAM bytes: eight glyph slots of eight bitmap rows each.
pub const CGRAM_SIZE: u8 = 0x40;

/// Bitmap rows per custom glyph slot.
pub const GLYPH_ROWS: u8 = 8;

/// Number of custom glyph slots.
pub const GLYPH_SLOTS: u8 = 8;

/// A CGRAM byte keeps only its low five bits, one bitmap row of five dots.
pub const GLYPH_ROW_MASK: u8 = 0x1F;

/// Empirical lower bound on the settle time the controller needs after the
/// init sequence; anything shorter leaves the display unresponsive. This is
/// a margin beyond the per-byte command delay and must stay a distinct wait.
pub const MIN_POST_INIT_SETTLE_NS: u32 = 1_500_000;

/// Settle time this driver demands after init: double the observed margin.
pub const POST_INIT_SETTLE_NS: u32 = 3_000_000;

/// Settle time after Clear Display, the slowest standard command; the
/// generic per-command delay is far too short for it.
pub const POST_CLEAR_SETTLE_NS: u32 = 2_000_000;

/// One byte of bus traffic the state machine has decided to send.
#[derive(Clone, Copy, PartialEq, Eq, Structural, Debug)]
pub struct BusWrite {
    pub mode: TransferMode,
    pub value: u8,
}

/// Power/reset phase of the controller.
#[derive(Clone, Copy, PartialEq, Eq, Structural, Debug)]
pub enum Phase {
    /// Fresh from power-up; interface width unknown.
    Uninitialized,
    /// The 4-bit bootstrap commands have been issued.
    FourBitMode,
    /// Function configuration is set; all operations are available.
    Functional,
}

/// Which memory the write cursor currently targets. The two are mutually
/// exclusive: whichever `seek`/`seek_cgram` ran last decides where every
/// following `write` lands.
#[derive(Clone, Copy, PartialEq, Eq, Structural, Debug)]
pub enum WriteTarget {
    Ddram,
    Cgram,
}

/// A command-mode bus write.
pub open spec fn spec_command(value: u8) -> BusWrite {
    BusWrite { mode: TransferMode::Command, value }
}

/// A data-mode bus write.
pub open spec fn spec_data(value: u8) -> BusWrite {
    BusWrite { mode: TransferMode::Data, value }
}

/// What the controller retains of a byte written to CGRAM: the low five
/// bits, one bitmap row; the top three bits are not stored.
pub open spec fn spec_stored_glyph_row(value: u8) -> u8 {
    value & GLYPH_ROW_MASK
}

/// Host-side model of the controller. Mirrors the state the chip itself
/// cannot report back.
pub struct Controller {
    pub phase: Phase,
    pub target: WriteTarget,
    pub ddram_cursor: u8,
    pub cgram_cursor: u8,
    /// Model of the glyph memory, one byte per bitmap row.
    pub cgram: Vec<u8>,
    pub display_on: bool,
    pub cursor_on: bool,
    pub blink_on: bool,
}

impl Controller {
    /// Cursors stay inside their memories and the glyph model holds exactly
    /// the bytes the chip would: 64 rows of five significant bits.
    pub open spec fn wf(self) -> bool {
        &&& self.ddram_cursor < DDRAM_SIZE
        &&& self.cgram_cursor < CGRAM_SIZE
        &&& self.cgram@.len() == CGRAM_SIZE
        &&& forall|i: int|
            0 <= i < self.cgram@.len() ==> #[trigger] self.cgram@[i] & GLYPH_ROW_MASK
                == self.cgram@[i]
    }

    /// Everything but the phase and the display-control flags.
    pub open spec fn same_memory(self, other: Controller) -> bool {
        &&& self.target == other.target
        &&& self.ddram_cursor == other.ddram_cursor
        &&& self.cgram_cursor == other.cgram_cursor
        &&& self.cgram@ == other.cgram@
    }

    /// Phase and display-control flags.
    pub open spec fn same_configuration(self, other: Controller) -> bool {
        &&& self.phase == other.phase
        &&& self.display_on == other.display_on
        &&& self.cursor_on == other.cursor_on
        &&& self.blink_on == other.blink_on
    }

    /// A freshly powered controller: uninitialized, DDRAM cursor armed at
    /// zero, glyph memory modeled as blank.
    pub fn new() -> (c: Controller)
        ensures
            c.wf(),
            c.phase is Uninitialized,
            c.target is Ddram,
            c.ddram_cursor == 0,
            c.cgram_cursor == 0,
            c.cgram@ == Seq::new(CGRAM_SIZE as nat, |i: int| 0u8),
            !c.display_on,
            !c.cursor_on,
            !c.blink_on,
    {
        let cgram: Vec<u8> = vec![0u8; CGRAM_SIZE as usize];
        proof {
            assert(cgram@ =~= Seq::new(CGRAM_SIZE as nat, |i: int| 0u8));
            assert(forall|i: int| 0 <= i < cgram@.len() ==> #[trigger] cgram@[i] == 0u8);
            assert(0u8 & GLYPH_ROW_MASK == 0u8) by (bit_vector);
        }
        Controller {
            phase: Phase::Uninitialized,
            target: WriteTarget::Ddram,
            ddram_cursor: 0,
            cgram_cursor: 0,
            cgram,
            display_on: false,
            cursor_on: false,
            blink_on: false,
        }
    }

    /// Issues the two bootstrap commands that force the interface into
    /// 4-bit operation, leaving the controller ready for Function Set.
    pub fn select_four_bit_mode(&mut self) -> (writes: Vec<BusWrite>)
        requires
            old(self).wf(),
            old(self).phase is Uninitialized,
        ensures
            final(self).wf(),
            writes@ == seq![spec_command(FIRST_INIT_COMMAND), spec_command(SECOND_INIT_COMMAND)],
            final(self).phase is FourBitMode,
            final(self).same_memory(*old(self)),
            final(self).display_on == old(self).display_on,
            final(self).cursor_on == old(self).cursor_on,
            final(self).blink_on == old(self).blink_on,
    {
        self.phase = Phase::FourBitMode;
        let mut writes: Vec<BusWrite> = Vec::new();
        writes.push(BusWrite { mode: TransferMode::Command, value: FIRST_INIT_COMMAND });
        writes.push(BusWrite { mode: TransferMode::Command, value: SECOND_INIT_COMMAND });
        proof {
            assert(writes@ =~= seq![
                spec_command(FIRST_INIT_COMMAND),
                spec_command(SECOND_INIT_COMMAND),
            ]);
        }
        writes
    }

    /// The Function Set command byte for a line count and font choice.
    pub open spec fn spec_function_set_value(two_lines: bool, wide_font: bool) -> u8 {
        (FUNCTION_SET_FLAG | (if two_lines {
            TWO_LINES_FLAG
        } else {
            0
        }) | (if wide_font {
            WIDE_FONT_FLAG
        } else {
            0
        })) as u8
    }

    /// Issues Function Set, fixing the electrical line count and font and
    /// making the controller functional. A four-row display still declares
    /// two lines here: it has two row drivers. The returned settle time must
    /// elapse before any further bus activity; it is an empirical hardware
    /// margin distinct from, and far larger than, the per-command delay.
    pub fn function_set(&mut self, two_lines: bool, wide_font: bool) -> (r: (BusWrite, u32))
        requires
            old(self).wf(),
            old(self).phase is FourBitMode,
        ensures
            final(self).wf(),
            r.0 == spec_command(Self::spec_function_set_value(two_lines, wide_font)),
            r.1 == POST_INIT_SETTLE_NS,
            r.1 >= MIN_POST_INIT_SETTLE_NS,
            final(self).phase is Functional,
            final(self).same_memory(*old(self)),
            final(self).display_on == old(self).display_on,
            final(self).cursor_on == old(self).cursor_on,
            final(self).blink_on == old(self).blink_on,
    {
        self.phase = Phase::Functional;
        let value = FUNCTION_SET_FLAG | (if two_lines {
            TWO_LINES_FLAG
        } else {
            0
        }) | (if wide_font {
            WIDE_FONT_FLAG
        } else {
            0
        });
        (BusWrite { mode: TransferMode::Command, value }, POST_INIT_SETTLE_NS)
    }

    /// Full initialization: the 4-bit bootstrap followed by Function Set.
    /// Returns the command sequence and the post-init settle time.
    pub fn init(&mut self, two_lines: bool, wide_font: bool) -> (r: (Vec<BusWrite>, u32))
        requires
            old(self).wf(),
            old(self).phase is Uninitialized,
        ensures
            final(self).wf(),
            r.0@ == seq![
                spec_command(FIRST_INIT_COMMAND),
                spec_command(SECOND_INIT_COMMAND),
                spec_command(Self::spec_function_set_value(two_lines, wide_font)),
            ],
            r.1 == POST_INIT_SETTLE_NS,
            r.1 >= MIN_POST_INIT_SETTLE_NS,
            final(self).phase is Functional,
            final(self).same_memory(*old(self)),
            final(self).display_on == old(self).display_on,
            final(self).cursor_on == old(self).cursor_on,
            final(self).blink_on == old(self).blink_on,
    {
        let mut writes = self.select_four_bit_mode();
        let (function_set_write, settle) = self.function_set(two_lines, wide_font);
        writes.push(function_set_write);
        proof {
            assert(writes@ =~= seq![
                spec_command(FIRST_INIT_COMMAND),
                spec_command(SECOND_INIT_COMMAND),
                spec_command(Self::spec_function_set_value(two_lines, wide_font)),
            ]);
        }
        (writes, settle)
    }

    /// The Display Control command byte for the three flags.
    pub open spec fn spec_display_control_value(
        display_on: bool,
        cursor_on: bool,
        blink_on: bool,
    ) -> u8 {
        (DISPLAY_CONTROL_FLAG | (if display_on {
            DISPLAY_ON_FLAG
        } else {
            0
        }) | (if cursor_on {
            CURSOR_ON_FLAG
        } else {
            0
        }) | (if blink_on {
            BLINK_ON_FLAG
        } else {
            0
        })) as u8
    }

    /// Issues Display Control with the three flags packed into the command
    /// byte; no settle beyond the per-command delay is needed.
    pub fn set_display_control(
        &mut self,
        display_on: bool,
        cursor_on: bool,
        blink_on: bool,
    ) -> (w: BusWrite)
        requires
            old(self).wf(),
            old(self).phase is Functional,
        ensures
            final(self).wf(),
            w == spec_command(Self::spec_display_control_value(display_on, cursor_on, blink_on)),
            final(self).phase is Functional,
            final(self).display_on == display_on,
            final(self).cursor_on == cursor_on,
            final(self).blink_on == blink_on,
            final(self).same_memory(*old(self)),
    {
        self.display_on = display_on;
        self.cursor_on = cursor_on;
        self.blink_on = blink_on;
        let value = DISPLAY_CONTROL_FLAG | (if display_on {
            DISPLAY_ON_FLAG
        } else {
            0
        }) | (if cursor_on {
            CURSOR_ON_FLAG
        } else {
            0
        }) | (if blink_on {
            BLINK_ON_FLAG
        } else {
            0
        });
        BusWrite { mode: TransferMode::Command, value }
    }

    /// Issues Clear Display, which blanks the display and homes the DDRAM
    /// cursor. Clear is the slowest standard command: the returned settle
    /// time must elapse before further writes, on top of the per-command
    /// delay.
    pub fn clear(&mut self) -> (r: (BusWrite, u32))
        requires
            old(self).wf(),
            old(self).phase is Functional,
        ensures
            final(self).wf(),
            r.0 == spec_command(CLEAR_DISPLAY_COMMAND),
            r.1 == POST_CLEAR_SETTLE_NS,
            final(self).target is Ddram,
            final(self).ddram_cursor == 0,
            final(self).cgram_cursor == old(self).cgram_cursor,
            final(self).cgram@ == old(self).cgram@,
            final(self).same_configuration(*old(self)),
    {
        self.target = WriteTarget::Ddram;
        self.ddram_cursor = 0;
        (BusWrite { mode: TransferMode::Command, value: CLEAR_DISPLAY_COMMAND }, POST_CLEAR_SETTLE_NS)
    }

    /// Issues Set DDRAM Address: arms the DDRAM write cursor at an absolute
    /// address, so that subsequent writes land in display memory.
    pub fn seek(&mut self, address: u8) -> (w: BusWrite)
        requires
            old(self).wf(),
            old(self).phase is Functional,
            address < DDRAM_SIZE,
        ensures
            final(self).wf(),
            w == spec_command((SET_DDRAM_ADDRESS_FLAG + address) as u8),
            final(self).target is Ddram,
            final(self).ddram_cursor == address,
            final(self).cgram_cursor == old(self).cgram_cursor,
            final(self).cgram@ == old(self).cgram@,
            final(self).same_configuration(*old(self)),
    {
        self.target = WriteTarget::Ddram;
        self.ddram_cursor = address;
        BusWrite { mode: TransferMode::Command, value: SET_DDRAM_ADDRESS_FLAG + address }
    }

    /// Arms the DDRAM cursor at a (logical row, byte offset) position
    /// resolved through the row addressing policy.
    pub fn seek_row(
        &mut self,
        geometry: DisplayGeometry,
        row: LCDLineNumbers,
        offset: u8,
    ) -> (w: BusWrite)
        requires
            old(self).wf(),
            old(self).phase is Functional,
            geometry.wf(),
            geometry.spec_row_base(row) + offset < DDRAM_SIZE,
        ensures
            final(self).wf(),
            w == spec_command(
                (SET_DDRAM_ADDRESS_FLAG + geometry.spec_row_base(row) + offset) as u8,
            ),
            final(self).target is Ddram,
            final(self).ddram_cursor == geometry.spec_row_base(row) + offset,
            final(self).cgram_cursor == old(self).cgram_cursor,
            final(self).cgram@ == old(self).cgram@,
            final(self).same_configuration(*old(self)),
    {
        let base = geometry.row_base(row);
        self.seek(base + offset)
    }

    /// Issues Set CGRAM Address: arms the glyph-memory write cursor, so that
    /// subsequent writes each supply one bitmap row. The address must sit on
    /// a slot boundary, a multiple of the eight rows a slot holds.
    pub fn seek_cgram(&mut self, address: u8) -> (w: BusWrite)
        requires
            old(self).wf(),
            old(self).phase is Functional,
            address < CGRAM_SIZE,
            address % GLYPH_ROWS == 0,
        ensures
            final(self).wf(),
            w == spec_command((SET_CGRAM_ADDRESS_FLAG + address) as u8),
            final(self).target is Cgram,
            final(self).cgram_cursor == address,
            final(self).ddram_cursor == old(self).ddram_cursor,
            final(self).cgram@ == old(self).cgram@,
            final(self).same_configuration(*old(self)),
    {
        self.target = WriteTarget::Cgram;
        self.cgram_cursor = address;
        BusWrite { mode: TransferMode::Command, value: SET_CGRAM_ADDRESS_FLAG + address }
    }

    /// Sends one byte as character data to whichever cursor was armed last,
    /// then advances that cursor. A byte landing in CGRAM keeps only its low
    /// five bits — one five-dot bitmap row; the top three bits are not
    /// stored.
    pub fn write(&mut self, value: u8) -> (w: BusWrite)
        requires
            old(self).wf(),
            old(self).phase is Functional,
        ensures
            final(self).wf(),
            w == spec_data(value),
            final(self).target == old(self).target,
            final(self).same_configuration(*old(self)),
            old(self).target is Ddram ==> {
                &&& final(self).ddram_cursor == (old(self).ddram_cursor + 1) % (DDRAM_SIZE as int)
                &&& final(self).cgram_cursor == old(self).cgram_cursor
                &&& final(self).cgram@ == old(self).cgram@
            },
            old(self).target is Cgram ==> {
                &&& final(self).cgram_cursor == (old(self).cgram_cursor + 1) % (CGRAM_SIZE as int)
                &&& final(self).ddram_cursor == old(self).ddram_cursor
                &&& final(self).cgram@ == old(self).cgram@.update(
                    old(self).cgram_cursor as int,
                    spec_stored_glyph_row(value),
                )
            },
    {
        match self.target {
            WriteTarget::Ddram => {
                self.ddram_cursor = (self.ddram_cursor + 1) % DDRAM_SIZE;
            },
            WriteTarget::Cgram => {
                let stored = value & GLYPH_ROW_MASK;
                proof {
                    assert((value & 0x1F) & 0x1F == value & 0x1F) by (bit_vector);
                }
                let cursor = self.cgram_cursor as usize;
                self.cgram[cursor] = stored;
                self.cgram_cursor = (self.cgram_cursor + 1) % CGRAM_SIZE;
            },
        }
        BusWrite { mode: TransferMode::Data, value }
    }

    /// One bitmap row of the glyph-memory model, for checking what a
    /// programmed slot holds.
    pub fn glyph_row(&self, slot: u8, row: u8) -> (r: u8)
        requires
            self.wf(),
            slot < GLYPH_SLOTS,
            row < GLYPH_ROWS,
        ensures
            r == self.cgram@[slot * GLYPH_ROWS + row],
    {
        self.cgram[(slot * GLYPH_ROWS + row) as usize]
    }

    /// Programs one custom glyph slot: arms the CGRAM cursor at the slot's
    /// boundary and writes its eight bitmap rows, top row first. Afterwards
    /// the slot holds exactly the rows masked to their five significant
    /// bits, no other slot has changed, and writes still target CGRAM.
    pub fn program_glyph(&mut self, slot: u8, rows: &Vec<u8>) -> (writes: Vec<BusWrite>)
        requires
            old(self).wf(),
            old(self).phase is Functional,
            slot < GLYPH_SLOTS,
            rows@.len() == GLYPH_ROWS,
        ensures
            final(self).wf(),
            writes@ == seq![spec_command((SET_CGRAM_ADDRESS_FLAG + slot * GLYPH_ROWS) as u8)]
                + Seq::new(GLYPH_ROWS as nat, |i: int| spec_data(rows@[i])),
            final(self).target is Cgram,
            final(self).cgram_cursor == (slot * GLYPH_ROWS + GLYPH_ROWS) % (CGRAM_SIZE as int),
            final(self).ddram_cursor == old(self).ddram_cursor,
            final(self).cgram@.len() == old(self).cgram@.len(),
            forall|i: int|
                0 <= i < GLYPH_ROWS ==> final(self).cgram@[slot * GLYPH_ROWS + i]
                    == spec_stored_glyph_row(#[trigger] rows@[i]),
            forall|i: int|
                0 <= i < old(self).cgram@.len() && !(slot * GLYPH_ROWS <= i < slot * GLYPH_ROWS
                    + GLYPH_ROWS) ==> final(self).cgram@[i] == #[trigger] old(self).cgram@[i],
            final(self).same_configuration(*old(self)),
    {
        let mut writes: Vec<BusWrite> = Vec::new();
        let seek_write = self.seek_cgram(slot * GLYPH_ROWS);
        writes.push(seek_write);
        let ghost entry = *self;
        let mut i: usize = 0;
        while i < GLYPH_ROWS as usize
            invariant
                0 <= i <= GLYPH_ROWS,
                entry.wf(),
                entry.phase is Functional,
                entry.target is Cgram,
                entry.cgram_cursor == slot * GLYPH_ROWS,
                slot < GLYPH_SLOTS,
                rows@.len() == GLYPH_ROWS,
                self.wf(),
                self.phase is Functional,
                self.target is Cgram,
                self.cgram_cursor == (slot * GLYPH_ROWS + i) % (CGRAM_SIZE as int),
                self.ddram_cursor == entry.ddram_cursor,
                self.cgram@.len() == entry.cgram@.len(),
                self.same_configuration(entry),
                writes@ == seq![spec_command((SET_CGRAM_ADDRESS_FLAG + slot * GLYPH_ROWS) as u8)]
                    + Seq::new(i as nat, |j: int| spec_data(rows@[j])),
                forall|j: int|
                    0 <= j < i ==> self.cgram@[slot * GLYPH_ROWS + j] == spec_stored_glyph_row(
                        #[trigger] rows@[j],
                    ),
                forall|j: int|
                    0 <= j < entry.cgram@.len() && !(slot * GLYPH_ROWS <= j < slot * GLYPH_ROWS
                        + i) ==> self.cgram@[j] == #[trigger] entry.cgram@[j],
            decreases GLYPH_ROWS - i,
        {
            let w = self.write(rows[i]);
            writes.push(w);
            i = i + 1;
            proof {
                assert(writes@ =~= seq![
                    spec_command((SET_CGRAM_ADDRESS_FLAG + slot * GLYPH_ROWS) as u8),
                ] + Seq::new(i as nat, |j: int| spec_data(rows@[j])));
            }
        }
        writes
    }

    /// Writes a run of character bytes to display memory, advancing the
    /// DDRAM cursor once per byte. Each byte goes out as one data-mode bus
    /// write, in order.
    pub fn write_bytes(&mut self, bytes: &Vec<u8>) -> (writes: Vec<BusWrite>)
        requires
            old(self).wf(),
            old(self).phase is Functional,
            old(self).target is Ddram,
        ensures
            final(self).wf(),
            writes@ == Seq::new(bytes@.len(), |i: int| spec_data(bytes@[i])),
            final(self).target is Ddram,
            final(self).ddram_cursor == (old(self).ddram_cursor + bytes@.len()) % (
            DDRAM_SIZE as int),
            final(self).cgram_cursor == old(self).cgram_cursor,
            final(self).cgram@ == old(self).cgram@,
            final(self).same_configuration(*old(self)),
    {
        let mut writes: Vec<BusWrite> = Vec::new();
        let ghost entry = *self;
        let mut i: usize = 0;
        while i < bytes.len()
            invariant
                0 <= i <= bytes@.len(),
                entry.wf(),
                entry.phase is Functional,
                entry.target is Ddram,
                self.wf(),
                self.phase is Functional,
                self.target is Ddram,
                self.ddram_cursor == (entry.ddram_cursor + i) % (DDRAM_SIZE as int),
                self.cgram_cursor == entry.cgram_cursor,
                self.cgram@ == entry.cgram@,
                self.same_configuration(entry),
                writes@ == Seq::new(i as nat, |j: int| spec_data(bytes@[j])),
            decreases bytes@.len() - i,
        {
            let w = self.write(bytes[i]);
            writes.push(w);
            proof {
                vstd::arithmetic::div_mod::lemma_add_mod_noop(
                    entry.ddram_cursor + i,
                    1,
                    DDRAM_SIZE as int,
                );
            }
            i = i + 1;
            proof {
                assert(writes@ =~= Seq::new(i as nat, |j: int| spec_data(bytes@[j])));
            }
        }
        writes
    }
}

/// Only the low five bits of a byte written while the CGRAM cursor is
/// active reach the stored bitmap: two bytes agreeing on those bits store
/// the same row, whatever their top three bits.
pub proof fn lemma_cgram_write_low_bits_only(value_a: u8, value_b: u8)
    requires
        value_a & GLYPH_ROW_MASK == value_b & GLYPH_ROW_MASK,
    ensures
        spec_stored_glyph_row(value_a) == spec_stored_glyph_row(value_b),
{
}

/// A stored bitmap row always fits in five bits.
pub proof fn lemma_stored_glyph_row_fits(value: u8)
    ensures
        spec_stored_glyph_row(value) < 0x20,
{
    assert(value & 0x1F < 0x20) by (bit_vector);
}

} // verus!

//! Electrical vocabulary of the 4-bit parallel bus.
//!
//! The transport layer never touches hardware itself: it compiles each
//! transfer into a sequence of [`LineAction`] values — level changes on the
//! control and data lines interleaved with mandatory waits — which an
//! executing layer plays back against real output pins in strict order.

use vstd::prelude::*;

verus! {

/// Logic level of one output line.
#[derive(Clone, Copy, PartialEq, Eq, Structural, Debug)]
pub enum Level {
    Low,
    High,
}

/// Whether a byte is latched as a command or as character data; the
/// Register-Select line carries the distinction (Command = Low, Data = High).
#[derive(Clone, Copy, PartialEq, Eq, Structural, Debug)]
pub enum TransferMode {
    Command,
    Data,
}

impl TransferMode {
    /// Level the Register-Select line must carry for this mode.
    pub open spec fn spec_rs_level(self) -> Level {
        match self {
            TransferMode::Command => Level::Low,
            TransferMode::Data => Level::High,
        }
    }

    pub fn rs_level(self) -> (l: Level)
        ensures
            l == self.spec_rs_level(),
    {
        match self {
            TransferMode::Command => Level::Low,
            TransferMode::Data => Level::High,
        }
    }
}

/// One step of a bus transfer, in the exact order the executing layer must
/// perform it. Reordering any of these relative to each other corrupts the
/// transfer, so the transport states the whole sequence explicitly.
#[derive(Clone, Copy, PartialEq, Eq, Structural, Debug)]
pub enum LineAction {
    /// Drive the Register-Select line.
    SetRegisterSelect(Level),
    /// Drive the four data lines, least significant bit on data line 4.
    SetData { d4: Level, d5: Level, d6: Level, d7: Level },
    /// Drive the Enable strobe line.
    SetEnable(Level),
    /// Sleep for at least this many nanoseconds before the next action.
    Wait(u16),
}

/// Level a line carries for one bit of a value under the given mask.
pub open spec fn spec_bit_level(value: u8, mask: u8) -> Level {
    if value & mask != 0 {
        Level::High
    } else {
        Level::Low
    }
}

pub fn bit_level(value: u8, mask: u8) -> (l: Level)
    ensures
        l == spec_bit_level(value, mask),
{
    if value & mask != 0 {
        Level::High
    } else {
        Level::Low
    }
}

} // verus!

//! The nibble/byte transfer protocol of the 4-bit parallel bus.
//!
//! One nibble travels as: select the register with RS and drive the four
//! data lines, wait the address-setup time so both settle, raise Enable,
//! hold it High for the pulse width while the controller samples the bus,
//! drop it, then wait the data-hold time before anything may change again.
//! A byte is two such transfers, high nibble first; a command needs one
//! further settle wait so the controller can execute it before the next
//! transfer begins.

use vstd::prelude::*;

use crate::signal::{bit_level, spec_bit_level, Level, LineAction, TransferMode};
use crate::timing::TimingProfile;

verus! {

/// Upper four bits of a byte, shifted down to the low nibble.
pub open spec fn spec_high_nibble(value: u8) -> u8 {
    value >> 4
}

/// Lower four bits of a byte.
pub open spec fn spec_low_nibble(value: u8) -> u8 {
    value & 0x0F
}

/// The exact action sequence of one nibble transfer.
pub open spec fn spec_nibble_actions(mode: TransferMode, nibble: u8, t: TimingProfile) -> Seq<
    LineAction,
> {
    seq![
        LineAction::SetRegisterSelect(mode.spec_rs_level()),
        (LineAction::SetData {
            d4: spec_bit_level(nibble, 0x01),
            d5: spec_bit_level(nibble, 0x02),
            d6: spec_bit_level(nibble, 0x04),
            d7: spec_bit_level(nibble, 0x08),
        }),
        LineAction::Wait(t.address_setup_ns),
        LineAction::SetEnable(Level::High),
        LineAction::Wait(t.enable_pulse_ns),
        LineAction::SetEnable(Level::Low),
        LineAction::Wait(t.data_hold_ns),
    ]
}

/// The exact action sequence of one byte transfer: high nibble, low nibble,
/// and for a command the settle wait the controller needs to execute it.
pub open spec fn spec_byte_actions(mode: TransferMode, value: u8, t: TimingProfile) -> Seq<
    LineAction,
> {
    spec_nibble_actions(mode, spec_high_nibble(value), t) + spec_nibble_actions(
        mode,
        spec_low_nibble(value),
        t,
    ) + if mode is Command {
        seq![LineAction::Wait(t.command_execution_ns)]
    } else {
        Seq::<LineAction>::empty()
    }
}

/// Compiles one 4-bit transfer into its action sequence.
pub fn nibble_actions(mode: TransferMode, nibble: u8, t: &TimingProfile) -> (actions: Vec<
    LineAction,
>)
    ensures
        actions@ == spec_nibble_actions(mode, nibble, *t),
{
    let mut actions: Vec<LineAction> = Vec::new();
    actions.push(LineAction::SetRegisterSelect(mode.rs_level()));
    actions.push(
        LineAction::SetData {
            d4: bit_level(nibble, 0x01),
            d5: bit_level(nibble, 0x02),
            d6: bit_level(nibble, 0x04),
            d7: bit_level(nibble, 0x08),
        },
    );
    actions.push(LineAction::Wait(t.address_setup_ns));
    actions.push(LineAction::SetEnable(Level::High));
    actions.push(LineAction::Wait(t.enable_pulse_ns));
    actions.push(LineAction::SetEnable(Level::Low));
    actions.push(LineAction::Wait(t.data_hold_ns));
    proof {
        assert(actions@ =~= spec_nibble_actions(mode, nibble, *t));
    }
    actions
}

/// Compiles one byte transfer (two strobe cycles, high nibble first, plus a
/// command's settle wait) into its action sequence.
pub fn byte_actions(mode: TransferMode, value: u8, t: &TimingProfile) -> (actions: Vec<LineAction>)
    ensures
        actions@ == spec_byte_actions(mode, value, *t),
{
    let mut actions = nibble_actions(mode, value >> 4, t);
    let mut low = nibble_actions(mode, value & 0x0F, t);
    actions.append(&mut low);
    if let TransferMode::Command = mode {
        actions.push(LineAction::Wait(t.command_execution_ns));
    }
    proof {
        assert(actions@ =~= spec_byte_actions(mode, value, *t));
    }
    actions
}

} // verus!

//! Minimum delay durations mandated by the controller's electrical
//! specification.
//!
//! The driver runs open loop: the read line is stubbed, so the busy flag can
//! never be polled and correctness rests entirely on waiting at least as long
//! as the datasheet's worst case at every step. A profile may always wait
//! longer than a minimum, never shorter: over-waiting only costs throughput,
//! under-waiting corrupts whatever the controller latches.
//!
//! The durations are kept in nanoseconds as the executing layer sleeps in
//! nanoseconds; the datasheet states the command-execution settle time in
//! microseconds, so a deployment must check each value against the target
//! controller's own datasheet rather than trust the unit blindly.

use vstd::prelude::*;

verus! {

/// Shortest allowed delay between driving RS/data and raising Enable.
pub const MIN_ADDRESS_SETUP_NS: u16 = 60;

/// Shortest allowed High time of the Enable strobe.
pub const MIN_ENABLE_PULSE_NS: u16 = 300;

/// Shortest allowed delay after dropping Enable before the data lines may
/// change.
pub const MIN_DATA_HOLD_NS: u16 = 10;

/// Shortest allowed settle time after a command byte before further bus
/// activity.
pub const MIN_COMMAND_EXECUTION_NS: u16 = 37;

/// A named set of delay durations used by the bus transport.
#[derive(Clone, Copy, PartialEq, Eq, Structural)]
pub struct TimingProfile {
    pub address_setup_ns: u16,
    pub enable_pulse_ns: u16,
    pub data_hold_ns: u16,
    pub command_execution_ns: u16,
}

impl TimingProfile {
    /// A profile is usable only when every duration reaches the datasheet
    /// minimum.
    pub open spec fn meets_minimums(self) -> bool {
        &&& self.address_setup_ns >= MIN_ADDRESS_SETUP_NS
        &&& self.enable_pulse_ns >= MIN_ENABLE_PULSE_NS
        &&& self.data_hold_ns >= MIN_DATA_HOLD_NS
        &&& self.command_execution_ns >= MIN_COMMAND_EXECUTION_NS
    }

    /// The conservative profile: exactly the datasheet minimums.
    pub fn conservative() -> (t: TimingProfile)
        ensures
            t.meets_minimums(),
            t.address_setup_ns == MIN_ADDRESS_SETUP_NS,
            t.enable_pulse_ns == MIN_ENABLE_PULSE_NS,
            t.data_hold_ns == MIN_DATA_HOLD_NS,
            t.command_execution_ns == MIN_COMMAND_EXECUTION_NS,
    {
        TimingProfile {
            address_setup_ns: MIN_ADDRESS_SETUP_NS,
            enable_pulse_ns: MIN_ENABLE_PULSE_NS,
            data_hold_ns: MIN_DATA_HOLD_NS,
            command_execution_ns: MIN_COMMAND_EXECUTION_NS,
        }
    }

    /// A custom profile; only durations at or above the minimums are
    /// accepted, since a shorter wait can silently corrupt transfers.
    pub fn new(
        address_setup_ns: u16,
        enable_pulse_ns: u16,
        data_hold_ns: u16,
        command_execution_ns: u16,
    ) -> (t: TimingProfile)
        requires
            address_setup_ns >= MIN_ADDRESS_SETUP_NS,
            enable_pulse_ns >= MIN_ENABLE_PULSE_NS,
            data_hold_ns >= MIN_DATA_HOLD_NS,
            command_execution_ns >= MIN_COMMAND_EXECUTION_NS,
        ensures
            t.meets_minimums(),
            t == (TimingProfile {
                address_setup_ns,
                enable_pulse_ns,
                data_hold_ns,
                command_execution_ns,
            }),
    {
        TimingProfile { address_setup_ns, enable_pulse_ns, data_hold_ns, command_execution_ns }
    }
}

} // verus!

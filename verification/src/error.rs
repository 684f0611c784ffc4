use vstd::prelude::*;

use crate::types::{FanMode, PerfMode};

verus! {

/// The kind of value that a reply byte failed to decode into.
#[derive(Clone, Copy, Debug, PartialEq, Eq, Structural)]
pub enum ValueKind {
    PerfMode,
    FanMode,
    CpuBoost,
    GpuBoost,
    MaxFanSpeedMode,
    LogoPower,
    LogoMode,
    BatteryCare,
    LightsAlwaysOn,
}

/// A requirement that the laptop's state or the caller's arguments did not meet.
#[derive(Clone, Copy, Debug, PartialEq, Eq, Structural)]
pub enum Precondition {
    /// The fan mode may only be used in the Balanced performance mode.
    FanModeNeedsBalanced(FanMode),
    /// The device does not offer this performance mode.
    UnsupportedPerfMode(PerfMode),
    /// The command needs the laptop to be in this performance mode.
    PerfModeRequired(PerfMode),
    /// The command needs Balanced performance mode with Manual fan mode.
    BalancedManualRequired,
    /// A fan speed outside 2000..=5000 RPM was asked for.
    RpmOutOfRange(u16),
}

/// Errors of the command protocol.
#[derive(Clone, Copy, Debug, PartialEq, Eq, Structural)]
pub enum RazerError {
    /// The reply does not match the request that was sent.
    ResponseMismatch,
    /// A requirement of the command was not met; nothing was changed.
    PreconditionFailed(Precondition),
    /// A reply byte is not a valid encoding of the expected kind of value.
    InvalidValue { value: u8, kind: ValueKind },
    /// A logo mode that has no lighting effect was passed where one is needed.
    InvalidLogoMode,
}

} // verus!
